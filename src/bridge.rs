use vstd::prelude::*;

use crate::errors::{classify, BridgeErrorCode, HueError, ProtocolIssue};
use crate::hue::{
    command_members, decode_envelope, envelope_result, json_object, CommandLight, HueResponse, IdentifiedLight,
    Light, User,
};
use crate::text::{decimal, json_string, light_id_of, parse_light_id, push_decimal, push_json_string, push_str};

verus! {

/// A bridge found on the network
#[derive(Debug, Clone)]
pub struct Discovery {
    /// The id of the bridge
    pub id: String,
    /// The address of the bridge on the local network
    pub internalipaddress: String,
}

impl Discovery {
    /// A discovered bridge of the given id and address
    pub fn new(id: String, internalipaddress: String) -> (r: Discovery)
        ensures
            r.id@ == id@,
            r.internalipaddress@ == internalipaddress@,
    {
        Discovery { id, internalipaddress }
    }

    /// Returns a `BridgeBuilder` with the ip of the bridge discovered
    pub fn build_bridge(self) -> (r: BridgeBuilder)
        ensures
            r.ip@ == self.internalipaddress@,
    {
        let Discovery { internalipaddress, .. } = self;
        BridgeBuilder { ip: internalipaddress }
    }

    /// The ip of this discovered bridge
    pub fn ip(&self) -> (r: &str)
        ensures
            r@ == self.internalipaddress@,
    {
        self.internalipaddress.as_str()
    }

    /// The id of this discovered bridge
    pub fn id(&self) -> (r: &str)
        ensures
            r@ == self.id@,
    {
        self.id.as_str()
    }
}

/// A bridge whose address is known and that has no user yet
#[derive(Debug, Clone)]
pub struct BridgeBuilder {
    /// The address of the bridge
    pub ip: String,
}

/// A bridge with the username it authorizes
#[derive(Debug, Clone)]
pub struct Bridge {
    /// The address of the bridge
    pub ip: String,
    /// The identity the bridge issued
    pub username: String,
}

/// The method of a request to the bridge
#[derive(Debug, Copy, Clone, PartialEq, Eq, Structural)]
pub enum Method {
    /// Reads a resource
    Get,
    /// Creates a resource
    Post,
    /// Changes a resource
    Put,
}

/// A request to send to the bridge
#[derive(Debug, Clone)]
pub struct Request {
    /// The method
    pub method: Method,
    /// The full URL
    pub url: String,
    /// The body, for requests that carry one
    pub body: Option<String>,
}

/// The URL of the bridge's API root
pub open spec fn api_url(ip: Seq<char>) -> Seq<char> {
    "http://"@ + ip + "/api"@
}

/// The URL of the lights of a user
pub open spec fn lights_url(ip: Seq<char>, username: Seq<char>) -> Seq<char> {
    api_url(ip) + "/"@ + username + "/lights"@
}

/// The URL of the state of one light of a user
pub open spec fn light_state_url(ip: Seq<char>, username: Seq<char>, light: nat) -> Seq<char> {
    lights_url(ip, username) + "/"@ + decimal(light) + "/state"@
}

/// The body of a registration request
pub open spec fn registration_body(devicetype: Seq<char>) -> Seq<char> {
    "{\"devicetype\": "@ + json_string(devicetype) + "}"@
}

fn push_api_url(out: &mut String, ip: &String)
    ensures
        final(out)@ == old(out)@ + api_url(ip@),
{
    push_str(out, "http://");
    push_str(out, ip.as_str());
    push_str(out, "/api");
    assert(final(out)@ =~= old(out)@ + api_url(ip@));
}

impl BridgeBuilder {
    /// A builder for the bridge at `ip`
    pub fn from_ip(ip: String) -> (r: Self)
        ensures
            r.ip@ == ip@,
    {
        BridgeBuilder { ip }
    }

    /// Returns a `Bridge` from an already existing user
    pub fn from_username(self, username: String) -> (r: Bridge)
        ensures
            r.ip@ == self.ip@,
            r.username@ == username@,
    {
        let BridgeBuilder { ip } = self;
        Bridge { ip, username }
    }

    /// Registers a new user on the bridge: the attempts that the returned
    /// sequence makes
    pub fn register_user(self, devicetype: &str) -> (r: RegisterIter)
        ensures
            r.builder == Some(self),
            r.devicetype@ == devicetype@,
    {
        RegisterIter { builder: Some(self), devicetype: devicetype.to_owned() }
    }
}

impl Bridge {
    /// The request that lists the lights of the bridge
    pub fn lights_request(&self) -> (r: Request)
        ensures
            r.method == Method::Get,
            r.url@ == lights_url(self.ip@, self.username@),
            r.body is None,
    {
        let mut url = String::new();
        push_api_url(&mut url, &self.ip);
        push_str(&mut url, "/");
        push_str(&mut url, self.username.as_str());
        push_str(&mut url, "/lights");
        assert(url@ =~= lights_url(self.ip@, self.username@));
        Request { method: Method::Get, url, body: None }
    }

    /// The request that sends `command` to the light of index `light`
    pub fn light_state_request(&self, light: usize, command: &CommandLight) -> (r: Request)
        ensures
            r.method == Method::Put,
            r.url@ == light_state_url(self.ip@, self.username@, light as nat),
            r.body matches Some(b) && b@ == json_object(command_members(*command)),
    {
        let mut url = String::new();
        push_api_url(&mut url, &self.ip);
        push_str(&mut url, "/");
        push_str(&mut url, self.username.as_str());
        push_str(&mut url, "/lights");
        push_str(&mut url, "/");
        push_decimal(&mut url, light as u64);
        push_str(&mut url, "/state");
        assert(url@ =~= light_state_url(self.ip@, self.username@, light as nat));
        Request { method: Method::Put, url, body: Some(command.encode()) }
    }
}

/// The sequence of registration attempts: pending while it holds a builder,
/// over once it holds none
#[derive(Debug, Clone)]
pub struct RegisterIter {
    /// The bridge to register on, while attempts remain
    pub builder: Option<BridgeBuilder>,
    /// The device type the user is registered for
    pub devicetype: String,
}

/// What a registration reply means: its one envelope's user, or the error
pub open spec fn reply_result(reply: Result<Vec<HueResponse<User>>, HueError>) -> Result<User, HueError> {
    match reply {
        Ok(v) => envelope_result(v@),
        Err(e) => Err(e),
    }
}

/// Whether an attempt's outcome calls for another attempt: only the bridge's
/// report that its link button has not been pressed does
pub open spec fn retry_worthy(outcome: Result<User, HueError>) -> bool {
    match outcome {
        Err(HueError::Bridge(e)) => classify(e.code) == BridgeErrorCode::LinkButtonNotPressed,
        _ => false,
    }
}

/// What an attempt on the bridge at `ip` yields for its outcome
pub open spec fn attempt_output(ip: String, outcome: Result<User, HueError>) -> Result<Bridge, HueError> {
    match outcome {
        Ok(u) => Ok(Bridge { ip, username: u.username }),
        Err(e) => Err(e),
    }
}

/// The sequence after an attempt that got `reply`: unchanged if it was over or
/// the attempt is to be retried, over otherwise
pub open spec fn next_state(s: RegisterIter, reply: Result<Vec<HueResponse<User>>, HueError>) -> RegisterIter {
    match s.builder {
        None => s,
        Some(_) => if retry_worthy(reply_result(reply)) {
            s
        } else {
            RegisterIter { builder: None, ..s }
        },
    }
}

/// What an attempt that got `reply` yields: nothing once the sequence is over
pub open spec fn next_output(s: RegisterIter, reply: Result<Vec<HueResponse<User>>, HueError>) -> Option<
    Result<Bridge, HueError>,
> {
    match s.builder {
        None => None,
        Some(b) => Some(attempt_output(b.ip, reply_result(reply))),
    }
}

impl RegisterIter {
    /// The request of the next attempt, or `None` once the sequence is over
    pub fn request(&self) -> (r: Option<Request>)
        ensures
            r is Some <==> self.builder is Some,
            r matches Some(q) ==> (q.method == Method::Post && q.url@ == api_url(
                self.builder.unwrap().ip@,
            ) && (q.body matches Some(b) && b@ == registration_body(self.devicetype@))),
    {
        match &self.builder {
            Some(b) => {
                let mut url = String::new();
                push_api_url(&mut url, &b.ip);
                let mut body = String::new();
                push_str(&mut body, "{\"devicetype\": ");
                push_json_string(&mut body, self.devicetype.as_str());
                push_str(&mut body, "}");
                assert(url@ =~= api_url(b.ip@));
                assert(body@ =~= registration_body(self.devicetype@));
                Some(Request { method: Method::Post, url, body: Some(body) })
            },
            None => None,
        }
    }

    /// Takes the reply to the attempt that `request` described and yields the
    /// attempt's result: the bridge with its new user on success, the error
    /// otherwise. Only a link-button error leaves the sequence pending; success
    /// and every other error end it, and an ended sequence yields `None`.
    pub fn next_attempt(&mut self, reply: Result<Vec<HueResponse<User>>, HueError>) -> (r: Option<
        Result<Bridge, HueError>,
    >)
        ensures
            *final(self) == next_state(*old(self), reply),
            r == next_output(*old(self), reply),
    {
        let builder = match self.builder.take() {
            Some(b) => b,
            None => return None,
        };
        let outcome = match reply {
            Ok(v) => decode_envelope(v),
            Err(e) => Err(e),
        };
        match outcome {
            Ok(user) => {
                let BridgeBuilder { ip } = builder;
                Some(Ok(Bridge { ip, username: user.username }))
            },
            Err(e) => {
                let retry = match &e {
                    HueError::Bridge(b) => b.error() == BridgeErrorCode::LinkButtonNotPressed,
                    _ => false,
                };
                if retry {
                    self.builder = Some(builder);
                }
                Some(Err(e))
            },
        }
    }
}

/// A successful attempt ends the registration: it yields the bridge with the
/// username the bridge issued, and every later attempt yields nothing.
pub proof fn lemma_registration_ends_on_success(
    s: RegisterIter,
    reply: Result<Vec<HueResponse<User>>, HueError>,
    later: Result<Vec<HueResponse<User>>, HueError>,
)
    requires
        s.builder is Some,
        reply_result(reply) is Ok,
    ensures
        next_output(s, reply) == Some(
            Ok::<Bridge, HueError>(
                Bridge { ip: s.builder.unwrap().ip, username: reply_result(reply)->Ok_0.username },
            ),
        ),
        next_state(s, reply).builder is None,
        next_output(next_state(s, reply), later) is None,
        next_state(next_state(s, reply), later) == next_state(s, reply),
{
}

/// An attempt that fails yields its error. Where the bridge's link button has
/// not been pressed the sequence stays as it was, so the next attempt is made
/// alike; any other error ends it, and every later attempt yields nothing.
pub proof fn lemma_registration_retries_only_link_button(
    s: RegisterIter,
    reply: Result<Vec<HueResponse<User>>, HueError>,
    later: Result<Vec<HueResponse<User>>, HueError>,
)
    requires
        s.builder is Some,
        reply_result(reply) is Err,
    ensures
        next_output(s, reply) == Some(Err::<Bridge, HueError>(reply_result(reply)->Err_0)),
        retry_worthy(reply_result(reply)) ==> next_state(s, reply) == s,
        !retry_worthy(reply_result(reply)) ==> next_state(s, reply).builder is None && next_output(
            next_state(s, reply),
            later,
        ) is None,
{
}

/// Whether every key of a light listing is a light id
pub open spec fn all_ids_valid(listing: Seq<(String, Light)>) -> bool {
    forall|i: int| 0 <= i < listing.len() ==> (#[trigger] light_id_of(listing[i].0@)) is Some
}

/// The listing's lights with the ids their keys denote
pub open spec fn identified(listing: Seq<(String, Light)>) -> Seq<IdentifiedLight> {
    listing.map_values(|p: (String, Light)| IdentifiedLight { id: light_id_of(p.0@)->Some_0, light: p.1 })
}

/// Whether the lights are in ascending order of id
pub open spec fn sorted_by_id(ls: Seq<IdentifiedLight>) -> bool {
    forall|i: int, j: int| 0 <= i < j < ls.len() ==> ls[i].id <= ls[j].id
}

proof fn lemma_multiset_take_out<A>(s: Seq<A>, i: int)
    requires
        0 <= i < s.len(),
    ensures
        s.to_multiset() =~= s.remove(i).to_multiset().insert(s[i]),
{
    broadcast use vstd::seq_lib::group_to_multiset_ensures;

    assert(s.contains(s[i]));
}

/// The lights of a listing, keyed by the decimal ids the bridge addresses them
/// by, in ascending order of id. Fails with a protocol error where a key is
/// not a light id.
pub fn identify_lights(listing: Vec<(String, Light)>) -> (r: Result<Vec<IdentifiedLight>, HueError>)
    ensures
        r is Ok <==> all_ids_valid(listing@),
        r is Err ==> r == Err::<Vec<IdentifiedLight>, HueError>(
            HueError::Protocol(ProtocolIssue::InvalidLightId),
        ),
        r matches Ok(v) ==> sorted_by_id(v@) && v@.to_multiset() == identified(listing@).to_multiset(),
{
    let ghost whole = listing@;
    let mut remaining = listing;
    let mut lights: Vec<IdentifiedLight> = Vec::new();
    proof {
        broadcast use vstd::seq_lib::group_to_multiset_ensures;
        broadcast use vstd::multiset::lemma_multiset_empty_len;

        assert(identified(whole.skip(whole.len() as int)) =~= Seq::<IdentifiedLight>::empty());
        assert(lights@ =~= Seq::<IdentifiedLight>::empty());
    }
    while remaining.len() > 0
        invariant
            whole == listing@,
            remaining@ == whole.take(remaining.len() as int),
            remaining.len() <= whole.len(),
            forall|i: int| remaining.len() <= i < whole.len() ==> (#[trigger] light_id_of(whole[i].0@)) is Some,
            sorted_by_id(lights@),
            lights@.to_multiset() == identified(whole.skip(remaining.len() as int)).to_multiset(),
        decreases remaining.len(),
    {
        let ghost n = remaining.len() as int;
        let entry = remaining.pop();
        let (key, light) = match entry {
            Some(e) => e,
            None => return Err(HueError::Protocol(ProtocolIssue::InvalidLightId)),
        };
        assert(whole[n - 1] == (key, light));
        let id = match parse_light_id(key.as_str()) {
            Some(id) => id,
            None => {
                assert(light_id_of(whole[n - 1].0@) is None);
                assert(!all_ids_valid(whole));
                return Err(HueError::Protocol(ProtocolIssue::InvalidLightId));
            },
        };
        let mut j: usize = 0;
        while j < lights.len() && lights[j].id <= id
            invariant
                j <= lights.len(),
                forall|k: int| 0 <= k < j ==> lights@[k].id <= id,
            decreases lights.len() - j,
        {
            j = j + 1;
        }
        let item = IdentifiedLight { id, light };
        let ghost before = lights@;
        lights.insert(j, item);
        proof {
            assert(lights@.remove(j as int) =~= before);
            lemma_multiset_take_out(lights@, j as int);
            let rest = identified(whole.skip(n - 1));
            assert(rest[0] == item);
            assert(rest.remove(0) =~= identified(whole.skip(n)));
            lemma_multiset_take_out(rest, 0);
            assert forall|a: int, b: int| 0 <= a < b < lights@.len() implies lights@[a].id <= lights@[b].id by {
                if b < j {
                } else if b == j {
                } else if a < j {
                    assert(before[a].id <= before[b - 1].id);
                } else if a == j {
                    assert(j < before.len());
                    assert(before[j as int].id > id);
                    assert(before[j as int].id <= before[b - 1].id);
                } else {
                    assert(before[a - 1].id <= before[b - 1].id);
                }
            }
        }
    }
    proof {
        assert(whole.skip(0) =~= whole);
    }
    Ok(lights)
}

} // verus!
