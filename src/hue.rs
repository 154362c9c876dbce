use vstd::prelude::*;

use crate::errors::{BridgeError, HueError, ProtocolIssue};
use crate::text::{decimal, digits_value, push_char, push_decimal, push_str};

verus! {

/// The state of a light, as the bridge reports it
#[derive(Debug, Copy, Clone, PartialEq, Eq, Structural)]
pub struct LightState {
    /// Whether the light is on
    pub on: bool,
    /// Brightness
    pub bri: u8,
    /// Hue
    pub hue: u16,
    /// Saturation
    pub sat: u8,
    /// Mired colour temperature, where the light has one
    pub ct: Option<u16>,
}

/// A light, as the bridge describes it
#[derive(Debug, Clone)]
pub struct Light {
    /// The name of the light
    pub name: String,
    /// The model id of the light
    pub modelid: String,
    /// The firmware version of the light
    pub swversion: String,
    /// The unique id of the light
    pub uniqueid: String,
    /// The state of the light
    pub state: LightState,
}

/// A light together with the index the bridge addresses it by
#[derive(Debug, Clone)]
pub struct IdentifiedLight {
    /// The index of the light on the bridge
    pub id: usize,
    /// The light
    pub light: Light,
}

/// A command that sets some of a light's attributes and leaves the others alone.
///
/// Each field is either unset, and then never sent, or set to a value.
#[derive(Debug, Copy, Clone, PartialEq, Eq, Structural)]
pub struct CommandLight {
    /// Whether to turn the light off or on
    pub on: Option<bool>,
    /// Brightness of the colour of the light
    pub bri: Option<u8>,
    /// The hue of the colour of the light
    pub hue: Option<u16>,
    /// The saturation of the colour of the light
    pub sat: Option<u8>,
    /// The Mired colour temperature of the light
    pub ct: Option<u16>,
}

/// The command that sets no field
pub open spec fn empty_command() -> CommandLight {
    CommandLight { on: None, bri: None, hue: None, sat: None, ct: None }
}

impl Default for CommandLight {
    /// The command that sets no field
    fn default() -> (r: CommandLight)
        ensures
            r == empty_command(),
    {
        CommandLight { on: None, bri: None, hue: None, sat: None, ct: None }
    }
}

impl CommandLight {
    /// Returns a `CommandLight` that turns a light on
    pub fn on(self) -> (r: Self)
        ensures
            r == (CommandLight { on: Some(true), ..self }),
    {
        CommandLight { on: Some(true), ..self }
    }

    /// Returns a `CommandLight` that turns a light off
    pub fn off(self) -> (r: Self)
        ensures
            r == (CommandLight { on: Some(false), ..self }),
    {
        CommandLight { on: Some(false), ..self }
    }

    /// Sets the brightness to set the light to
    pub fn with_bri(self, b: u8) -> (r: Self)
        ensures
            r == (CommandLight { bri: Some(b), ..self }),
    {
        CommandLight { bri: Some(b), ..self }
    }

    /// Sets the hue to set the light to
    pub fn with_hue(self, h: u16) -> (r: Self)
        ensures
            r == (CommandLight { hue: Some(h), ..self }),
    {
        CommandLight { hue: Some(h), ..self }
    }

    /// Sets the saturation to set the light to
    pub fn with_sat(self, s: u8) -> (r: Self)
        ensures
            r == (CommandLight { sat: Some(s), ..self }),
    {
        CommandLight { sat: Some(s), ..self }
    }

    /// Sets the colour temperature to set the light to
    pub fn with_ct(self, c: u16) -> (r: Self)
        ensures
            r == (CommandLight { ct: Some(c), ..self }),
    {
        CommandLight { ct: Some(c), ..self }
    }

    /// The JSON object that carries this command: one member for each set
    /// field, in the order `on`, `bri`, `hue`, `sat`, `ct`, and none for an
    /// unset one.
    pub fn encode(&self) -> (r: String)
        ensures
            r@ == json_object(command_members(*self)),
    {
        let mut out = String::new();
        push_char(&mut out, '{');
        let ghost ms0: Seq<(Seq<char>, Seq<char>)> = seq![];
        let ghost ms1 = ms0 + field_member(key_on(), bool_member(self.on));
        let ghost ms2 = ms1 + field_member(key_bri(), number_member(self.bri));
        let ghost ms3 = ms2 + field_member(key_hue(), wide_member(self.hue));
        let ghost ms4 = ms3 + field_member(key_sat(), number_member(self.sat));
        let ghost ms5 = ms4 + field_member(key_ct(), wide_member(self.ct));
        assert(out@ =~= seq!['{'] + join_members(ms0));
        let count = push_bool_field(&mut out, 0, "on", self.on, Ghost(ms0));
        proof {
            reveal_strlit("on");
            assert("on"@ =~= key_on());
            assert(out@ =~= seq!['{'] + join_members(ms1));
        }
        let bri = match self.bri {
            Some(b) => Some(b as u64),
            None => None,
        };
        let count = push_number_field(&mut out, count, "bri", bri, Ghost(ms1));
        proof {
            reveal_strlit("bri");
            assert("bri"@ =~= key_bri());
            assert(field_member(key_bri(), wide_number_member(bri)) =~= field_member(key_bri(), number_member(self.bri)));
            assert(ms1 + field_member("bri"@, wide_number_member(bri)) =~= ms2);
            assert(out@ =~= seq!['{'] + join_members(ms2));
        }
        let hue = match self.hue {
            Some(h) => Some(h as u64),
            None => None,
        };
        let count = push_number_field(&mut out, count, "hue", hue, Ghost(ms2));
        proof {
            reveal_strlit("hue");
            assert("hue"@ =~= key_hue());
            assert(field_member(key_hue(), wide_number_member(hue)) =~= field_member(key_hue(), wide_member(self.hue)));
            assert(ms2 + field_member("hue"@, wide_number_member(hue)) =~= ms3);
            assert(out@ =~= seq!['{'] + join_members(ms3));
        }
        let sat = match self.sat {
            Some(s) => Some(s as u64),
            None => None,
        };
        let count = push_number_field(&mut out, count, "sat", sat, Ghost(ms3));
        proof {
            reveal_strlit("sat");
            assert("sat"@ =~= key_sat());
            assert(field_member(key_sat(), wide_number_member(sat)) =~= field_member(key_sat(), number_member(self.sat)));
            assert(ms3 + field_member("sat"@, wide_number_member(sat)) =~= ms4);
            assert(out@ =~= seq!['{'] + join_members(ms4));
        }
        let ct = match self.ct {
            Some(c) => Some(c as u64),
            None => None,
        };
        let _ = push_number_field(&mut out, count, "ct", ct, Ghost(ms4));
        proof {
            reveal_strlit("ct");
            assert("ct"@ =~= key_ct());
            assert(field_member(key_ct(), wide_number_member(ct)) =~= field_member(key_ct(), wide_member(self.ct)));
            assert(ms4 + field_member("ct"@, wide_number_member(ct)) =~= ms5);
            assert(out@ =~= seq!['{'] + join_members(ms5));
            assert(ms5 =~= command_members(*self));
        }
        push_char(&mut out, '}');
        out
    }
}

/// The value text of a set field of any width
pub open spec fn wide_number_member(v: Option<u64>) -> Option<Seq<char>> {
    match v {
        Some(n) => Some(decimal(n as nat)),
        None => None,
    }
}

/// Appends the member of a boolean field, if it is set, to an object whose
/// members so far are `ms`, and returns the new member count.
fn push_bool_field(
    out: &mut String,
    count: usize,
    key: &str,
    v: Option<bool>,
    Ghost(ms): Ghost<Seq<(Seq<char>, Seq<char>)>>,
) -> (c: usize)
    requires
        count == ms.len() < 5,
        old(out)@ == seq!['{'] + join_members(ms),
    ensures
        c == ms.len() + field_member(key@, bool_member(v)).len(),
        final(out)@ == seq!['{'] + join_members(ms + field_member(key@, bool_member(v))),
{
    match v {
        Some(b) => {
            push_key(out, count, key, Ghost(ms));
            if b {
                push_str(out, "true");
            } else {
                push_str(out, "false");
            }
            proof {
                reveal_strlit("true");
                reveal_strlit("false");
                lemma_join_push(ms, key@, bool_text(b));
                assert(ms + field_member(key@, bool_member(v)) =~= ms.push((key@, bool_text(b))));
                assert(final(out)@ =~= seq!['{'] + join_members(ms.push((key@, bool_text(b)))));
            }
            count + 1
        },
        None => {
            assert(ms + field_member(key@, bool_member(v)) =~= ms);
            count
        },
    }
}

/// Appends the member of a numeric field, if it is set, to an object whose
/// members so far are `ms`, and returns the new member count.
fn push_number_field(
    out: &mut String,
    count: usize,
    key: &str,
    v: Option<u64>,
    Ghost(ms): Ghost<Seq<(Seq<char>, Seq<char>)>>,
) -> (c: usize)
    requires
        count == ms.len() < 5,
        old(out)@ == seq!['{'] + join_members(ms),
    ensures
        c == ms.len() + field_member(key@, wide_number_member(v)).len(),
        final(out)@ == seq!['{'] + join_members(ms + field_member(key@, wide_number_member(v))),
{
    match v {
        Some(n) => {
            push_key(out, count, key, Ghost(ms));
            push_decimal(out, n);
            proof {
                lemma_join_push(ms, key@, decimal(n as nat));
                assert(ms + field_member(key@, wide_number_member(v)) =~= ms.push((key@, decimal(n as nat))));
                assert(final(out)@ =~= seq!['{'] + join_members(ms.push((key@, decimal(n as nat)))));
            }
            count + 1
        },
        None => {
            assert(ms + field_member(key@, wide_number_member(v)) =~= ms);
            count
        },
    }
}

/// Appends the separator and the quoted key that open the next member of an
/// object whose members so far are `ms`.
fn push_key(out: &mut String, count: usize, key: &str, Ghost(ms): Ghost<Seq<(Seq<char>, Seq<char>)>>)
    requires
        count == ms.len(),
        old(out)@ == seq!['{'] + join_members(ms),
    ensures
        final(out)@ == seq!['{'] + join_members(ms) + (if ms.len() == 0 {
            seq![]
        } else {
            seq![',']
        }) + seq!['"'] + key@ + seq!['"', ':'],
{
    if count > 0 {
        push_char(out, ',');
    }
    push_char(out, '"');
    push_str(out, key);
    push_char(out, '"');
    push_char(out, ':');
    proof {
        assert(final(out)@ =~= seq!['{'] + join_members(ms) + (if ms.len() == 0 {
            seq![]
        } else {
            seq![',']
        }) + seq!['"'] + key@ + seq!['"', ':']);
    }
}

proof fn lemma_join_push(ms: Seq<(Seq<char>, Seq<char>)>, key: Seq<char>, value: Seq<char>)
    ensures
        join_members(ms.push((key, value))) == join_members(ms) + (if ms.len() == 0 {
            seq![]
        } else {
            seq![',']
        }) + seq!['"'] + key + seq!['"', ':'] + value,
{
    assert(ms.push((key, value)).drop_last() =~= ms);
    if ms.len() == 0 {
        assert(join_members(ms.push((key, value))) =~= member_text(key, value));
    }
    assert(join_members(ms.push((key, value))) =~= join_members(ms) + (if ms.len() == 0 {
        seq![]
    } else {
        seq![',']
    }) + seq!['"'] + key + seq!['"', ':'] + value);
}

/// The JSON text of a boolean
pub open spec fn bool_text(b: bool) -> Seq<char> {
    if b {
        seq!['t', 'r', 'u', 'e']
    } else {
        seq!['f', 'a', 'l', 's', 'e']
    }
}

/// The key of the on/off field
pub open spec fn key_on() -> Seq<char> {
    seq!['o', 'n']
}

/// The key of the brightness field
pub open spec fn key_bri() -> Seq<char> {
    seq!['b', 'r', 'i']
}

/// The key of the hue field
pub open spec fn key_hue() -> Seq<char> {
    seq!['h', 'u', 'e']
}

/// The key of the saturation field
pub open spec fn key_sat() -> Seq<char> {
    seq!['s', 'a', 't']
}

/// The key of the colour temperature field
pub open spec fn key_ct() -> Seq<char> {
    seq!['c', 't']
}

/// The value text of a set boolean field
pub open spec fn bool_member(v: Option<bool>) -> Option<Seq<char>> {
    match v {
        Some(b) => Some(bool_text(b)),
        None => None,
    }
}

/// The value text of a set byte field
pub open spec fn number_member(v: Option<u8>) -> Option<Seq<char>> {
    match v {
        Some(n) => Some(decimal(n as nat)),
        None => None,
    }
}

/// The value text of a set 16-bit field
pub open spec fn wide_member(v: Option<u16>) -> Option<Seq<char>> {
    match v {
        Some(n) => Some(decimal(n as nat)),
        None => None,
    }
}

/// The member of a field: one (key, value text) pair if it is set, none if not
pub open spec fn field_member(key: Seq<char>, value: Option<Seq<char>>) -> Seq<(Seq<char>, Seq<char>)> {
    match value {
        Some(v) => seq![(key, v)],
        None => seq![],
    }
}

/// The members of a command's JSON object, in field order
pub open spec fn command_members(c: CommandLight) -> Seq<(Seq<char>, Seq<char>)> {
    field_member(key_on(), bool_member(c.on))
        + field_member(key_bri(), number_member(c.bri))
        + field_member(key_hue(), wide_member(c.hue))
        + field_member(key_sat(), number_member(c.sat))
        + field_member(key_ct(), wide_member(c.ct))
}

/// The text of one member: the quoted key, a colon and the value
pub open spec fn member_text(key: Seq<char>, value: Seq<char>) -> Seq<char> {
    seq!['"'] + key + seq!['"', ':'] + value
}

/// The members' texts separated by commas
pub open spec fn join_members(ms: Seq<(Seq<char>, Seq<char>)>) -> Seq<char>
    decreases ms.len(),
{
    if ms.len() == 0 {
        seq![]
    } else if ms.len() == 1 {
        member_text(ms[0].0, ms[0].1)
    } else {
        join_members(ms.drop_last()) + seq![','] + member_text(ms.last().0, ms.last().1)
    }
}

/// A JSON object of the given members
pub open spec fn json_object(ms: Seq<(Seq<char>, Seq<char>)>) -> Seq<char> {
    seq!['{'] + join_members(ms) + seq!['}']
}

/// Whether `key` is the key of a field that `c` sets
pub open spec fn sets_key(c: CommandLight, key: Seq<char>) -> bool {
    (key == key_on() && c.on is Some) || (key == key_bri() && c.bri is Some) || (key == key_hue()
        && c.hue is Some) || (key == key_sat() && c.sat is Some) || (key == key_ct() && c.ct is Some)
}

/// The value text of the first member whose key is `key`
pub open spec fn member_value(ms: Seq<(Seq<char>, Seq<char>)>, key: Seq<char>) -> Option<Seq<char>>
    decreases ms.len(),
{
    if ms.len() == 0 {
        None
    } else if ms[0].0 == key {
        Some(ms[0].1)
    } else {
        member_value(ms.drop_first(), key)
    }
}

/// A member's value text read as a boolean
pub open spec fn read_bool(v: Option<Seq<char>>) -> Option<bool> {
    match v {
        Some(t) => Some(t == bool_text(true)),
        None => None,
    }
}

/// A member's value text read as a byte
pub open spec fn read_byte(v: Option<Seq<char>>) -> Option<u8> {
    match v {
        Some(t) => Some(digits_value(t) as u8),
        None => None,
    }
}

/// A member's value text read as a 16-bit number
pub open spec fn read_wide(v: Option<Seq<char>>) -> Option<u16> {
    match v {
        Some(t) => Some(digits_value(t) as u16),
        None => None,
    }
}

/// The command that a list of members describes: each field is read from the
/// member of its key, and is unset where there is none
pub open spec fn command_of_members(ms: Seq<(Seq<char>, Seq<char>)>) -> CommandLight {
    CommandLight {
        on: read_bool(member_value(ms, key_on())),
        bri: read_byte(member_value(ms, key_bri())),
        hue: read_wide(member_value(ms, key_hue())),
        sat: read_byte(member_value(ms, key_sat())),
        ct: read_wide(member_value(ms, key_ct())),
    }
}

proof fn lemma_member_value_front(
    k1: Seq<char>,
    v: Option<Seq<char>>,
    rest: Seq<(Seq<char>, Seq<char>)>,
)
    ensures
        forall|k: Seq<char>|
            #[trigger] member_value(field_member(k1, v) + rest, k) == if v is Some && k1 == k {
                v
            } else {
                member_value(rest, k)
            },
{
    match v {
        Some(x) => {
            let ms = field_member(k1, v) + rest;
            assert(ms[0] == (k1, x));
            assert(ms.drop_first() =~= rest);
        },
        None => {
            assert(field_member(k1, v) + rest =~= rest);
        },
    }
}

/// The encoding of a command holds a member for exactly the fields the command
/// sets, and reading the members back gives the command again.
pub proof fn lemma_encode_round_trip(c: CommandLight)
    ensures
        forall|i: int|
            0 <= i < command_members(c).len() ==> sets_key(c, #[trigger] command_members(c)[i].0),
        forall|k: Seq<char>| sets_key(c, k) ==> #[trigger] member_value(command_members(c), k) is Some,
        command_of_members(command_members(c)) == c,
{
    let e: Seq<(Seq<char>, Seq<char>)> = seq![];
    let f_on = field_member(key_on(), bool_member(c.on));
    let f_bri = field_member(key_bri(), number_member(c.bri));
    let f_hue = field_member(key_hue(), wide_member(c.hue));
    let f_sat = field_member(key_sat(), number_member(c.sat));
    let f_ct = field_member(key_ct(), wide_member(c.ct));
    let m = command_members(c);
    assert(m =~= f_on + (f_bri + (f_hue + (f_sat + (f_ct + e)))));
    lemma_member_value_front(key_ct(), wide_member(c.ct), e);
    lemma_member_value_front(key_sat(), number_member(c.sat), f_ct + e);
    lemma_member_value_front(key_hue(), wide_member(c.hue), f_sat + (f_ct + e));
    lemma_member_value_front(key_bri(), number_member(c.bri), f_hue + (f_sat + (f_ct + e)));
    lemma_member_value_front(key_on(), bool_member(c.on), f_bri + (f_hue + (f_sat + (f_ct + e))));
    assert(member_value(e, key_on()) is None);
    assert(key_on() != key_bri() && key_on() != key_hue() && key_on() != key_sat() && key_on() != key_ct()) by {
        assert(key_on().len() != key_bri().len());
        assert(key_on()[0] != key_hue()[0] && key_on()[0] != key_sat()[0] && key_on()[1] != key_ct()[1]);
    }
    assert(key_bri() != key_hue() && key_bri() != key_sat() && key_bri() != key_ct()) by {
        assert(key_bri()[0] != key_hue()[0] && key_bri()[0] != key_sat()[0]);
        assert(key_bri().len() != key_ct().len());
    }
    assert(key_hue() != key_sat() && key_hue() != key_ct()) by {
        assert(key_hue()[0] != key_sat()[0]);
        assert(key_hue().len() != key_ct().len());
    }
    assert(key_sat() != key_ct()) by {
        assert(key_sat().len() != key_ct().len());
    }
    if let Some(b) = c.bri {
        crate::text::lemma_decimal_reads_back(b as nat);
    }
    if let Some(h) = c.hue {
        crate::text::lemma_decimal_reads_back(h as nat);
    }
    if let Some(s) = c.sat {
        crate::text::lemma_decimal_reads_back(s as nat);
    }
    if let Some(t) = c.ct {
        crate::text::lemma_decimal_reads_back(t as nat);
    }
    if let Some(b) = c.on {
        assert(bool_text(b) == bool_text(true) <==> b) by {
            assert(bool_text(false).len() != bool_text(true).len());
        }
    }
    assert forall|i: int| 0 <= i < m.len() implies sets_key(c, #[trigger] m[i].0) by {
        assert(m =~= f_on + f_bri + f_hue + f_sat + f_ct);
    }
}

/// A reply envelope: the bridge fills exactly one of the two fields
#[derive(Debug, Clone)]
pub struct HueResponse<T> {
    /// The result from the bridge if it did not fail
    pub success: Option<T>,
    /// The error that was returned from the bridge
    pub error: Option<Error>,
}

/// A user object returned from the bridge
#[derive(Debug, Clone)]
pub struct User {
    /// The username of the user
    pub username: String,
}

/// An error object returned from the bridge
#[derive(Debug, Clone)]
pub struct Error {
    /// The resource the error happened on
    pub address: String,
    /// A short description of the error
    pub description: String,
    /// The numeric error code (the bridge calls the field `type`)
    pub code: u16,
}

/// The client's account of an error object of the bridge
pub open spec fn bridge_error_of(e: Error) -> BridgeError {
    BridgeError { address: e.address, description: e.description, code: e.code }
}

impl From<Error> for HueError {
    fn from(e: Error) -> (r: HueError) {
        HueError::Bridge(BridgeError { address: e.address, description: e.description, code: e.code })
    }
}

impl vstd::std_specs::convert::FromSpecImpl<Error> for HueError {
    open spec fn obeys_from_spec() -> bool {
        true
    }

    open spec fn from_spec(e: Error) -> HueError {
        HueError::Bridge(bridge_error_of(e))
    }
}

/// What an envelope means: its success, else its error, else a protocol error
pub open spec fn response_result<T>(r: HueResponse<T>) -> Result<T, HueError> {
    match r.success {
        Some(s) => Ok(s),
        None => match r.error {
            Some(e) => Err(HueError::Bridge(bridge_error_of(e))),
            None => Err(HueError::Protocol(ProtocolIssue::UnrecognizableResponse)),
        },
    }
}

/// What a reply of envelopes means where exactly one is expected
pub open spec fn envelope_result<T>(rs: Seq<HueResponse<T>>) -> Result<T, HueError> {
    if rs.len() == 1 {
        response_result(rs[0])
    } else {
        Err(HueError::Protocol(ProtocolIssue::EnvelopeCount))
    }
}

impl<T> HueResponse<T> {
    /// The success of this envelope, or its error as a `HueError`
    pub fn into_result(self) -> (r: Result<T, HueError>)
        ensures
            r == response_result(self),
    {
        match self.success {
            Some(s) => Ok(s),
            None => match self.error {
                Some(e) => Err(HueError::from(e)),
                None => Err(HueError::Protocol(ProtocolIssue::UnrecognizableResponse)),
            },
        }
    }
}

/// The meaning of a reply that must hold exactly one envelope
pub fn decode_envelope<T>(mut reply: Vec<HueResponse<T>>) -> (r: Result<T, HueError>)
    ensures
        r == envelope_result(reply@),
{
    if reply.len() != 1 {
        return Err(HueError::Protocol(ProtocolIssue::EnvelopeCount));
    }
    match reply.pop() {
        Some(envelope) => envelope.into_result(),
        None => Err(HueError::Protocol(ProtocolIssue::EnvelopeCount)),
    }
}

/// An envelope that holds neither a success nor an error is unrecognizable,
/// alone and as the one envelope of a reply.
pub proof fn lemma_empty_envelope_unrecognizable<T>(r: HueResponse<T>)
    requires
        r.success is None,
        r.error is None,
    ensures
        response_result(r) == Err::<T, HueError>(HueError::Protocol(ProtocolIssue::UnrecognizableResponse)),
        envelope_result(seq![r]) == Err::<T, HueError>(
            HueError::Protocol(ProtocolIssue::UnrecognizableResponse),
        ),
{
}

/// The successes of a run of envelopes in order, or the error of the first
/// envelope that is not a success
pub open spec fn all_successes<T>(rs: Seq<HueResponse<T>>) -> Result<Seq<T>, HueError>
    decreases rs.len(),
{
    if rs.len() == 0 {
        Ok(seq![])
    } else {
        match all_successes(rs.drop_last()) {
            Err(e) => Err(e),
            Ok(prev) => match response_result(rs.last()) {
                Ok(x) => Ok(prev.push(x)),
                Err(e) => Err(e),
            },
        }
    }
}

/// What a reply of one or more envelopes means: all their successes, or the
/// first error
pub open spec fn replies_result<T>(rs: Seq<HueResponse<T>>) -> Result<Seq<T>, HueError> {
    if rs.len() == 0 {
        Err(HueError::Protocol(ProtocolIssue::EnvelopeCount))
    } else {
        all_successes(rs)
    }
}

proof fn lemma_all_successes_error_stays<T>(rs: Seq<HueResponse<T>>, i: int)
    requires
        0 <= i <= rs.len(),
        all_successes(rs.take(i)) is Err,
    ensures
        all_successes(rs) == all_successes(rs.take(i)),
    decreases rs.len() - i,
{
    if i < rs.len() {
        assert(rs.take(i + 1).drop_last() =~= rs.take(i));
        lemma_all_successes_error_stays(rs, i + 1);
    } else {
        assert(rs.take(i) =~= rs);
    }
}

/// The meaning of a reply that may hold several envelopes, such as the one
/// to a change of a light's state, which has one for each field set
pub fn decode_replies<T>(reply: Vec<HueResponse<T>>) -> (r: Result<Vec<T>, HueError>)
    ensures
        match replies_result(reply@) {
            Ok(s) => r matches Ok(v) && v@ == s,
            Err(e) => r == Err::<Vec<T>, HueError>(e),
        },
{
    if reply.len() == 0 {
        return Err(HueError::Protocol(ProtocolIssue::EnvelopeCount));
    }
    let ghost whole = reply@;
    let mut rest = reply;
    let mut out: Vec<T> = Vec::new();
    let mut i: usize = 0;
    while rest.len() > 0
        invariant
            whole == reply@,
            i + rest.len() == whole.len(),
            whole.len() <= usize::MAX,
            rest@ == whole.skip(i as int),
            all_successes(whole.take(i as int)) == Ok::<Seq<T>, HueError>(out@),
        decreases rest.len(),
    {
        let envelope = rest.remove(0);
        proof {
            assert(envelope == whole[i as int]);
            assert(whole.take(i + 1).drop_last() =~= whole.take(i as int));
            assert(whole.take(i + 1).last() == envelope);
            assert(rest@ =~= whole.skip(i + 1));
        }
        match envelope.into_result() {
            Ok(x) => {
                out.push(x);
            },
            Err(e) => {
                proof {
                    lemma_all_successes_error_stays(whole, i + 1);
                }
                return Err(e);
            },
        }
        i = i + 1;
    }
    proof {
        assert(whole.take(i as int) =~= whole);
    }
    Ok(out)
}

} // verus!
