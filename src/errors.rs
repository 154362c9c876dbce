use vstd::prelude::*;

verus! {

/// The error conditions a bridge reports, by their numeric code.
///
/// Every code that is not in the table is `Other`.
#[derive(Debug, Copy, Clone, PartialEq, Eq, Structural)]
pub enum BridgeErrorCode {
    // Generic errors
    UnauthorizedUser,
    BodyContainsInvalidJson,
    ResourceNotAvailable,
    MethodNotAvailableForResource,
    MissingParametersInBody,
    ParameterNotAvailable,
    InvalidValueForParameter,
    ParameterIsNotModifiable,
    TooManyItemsInList,
    ProtalConnectionRequired,
    InternalError,
    // Command specific errors
    LinkButtonNotPressed,
    DHCPCannotBeDisabled,
    InvalidUpdateState,
    DeviceIsSetToOff,
    GroupCouldNotBeCreatedGroupFull,
    DeviceCouldNotBeAddedGroupFull,
    DeviceIsUnreachable,
    UpdateOrDeleteGroupOfThisTypeNotAllowed,
    LightAlreadyUsed,
    SceneCouldNotBeCreated,
    SceneCouldNotBeCreatedBufferFull,
    SceneCouldNotBeRemoved,
    NotAllowedToCreateSensorType,
    SensorListIsFull,
    RuleEngineFull,
    ConditionError,
    ActionError,
    UnableToActivae,
    ScheduleListIsFull,
    ScheduleTimezoneNotValid,
    ScheduleCannotSetTimeAndLocalTime,
    CannotCreateSchedule,
    CannotEnableScheduleTimeInPast,
    CommandError,
    SourceModelInvalid,
    SourceFactoryNew,
    InvalidState,
    /// A code that is not in the table
    Other,
}

/// The numeric code of each named condition; `Other` has none and is given 0,
/// which no condition uses.
pub open spec fn code_of(c: BridgeErrorCode) -> u16 {
    match c {
        BridgeErrorCode::UnauthorizedUser => 1,
        BridgeErrorCode::BodyContainsInvalidJson => 2,
        BridgeErrorCode::ResourceNotAvailable => 3,
        BridgeErrorCode::MethodNotAvailableForResource => 4,
        BridgeErrorCode::MissingParametersInBody => 5,
        BridgeErrorCode::ParameterNotAvailable => 6,
        BridgeErrorCode::InvalidValueForParameter => 7,
        BridgeErrorCode::ParameterIsNotModifiable => 8,
        BridgeErrorCode::TooManyItemsInList => 11,
        BridgeErrorCode::ProtalConnectionRequired => 12,
        BridgeErrorCode::InternalError => 901,
        BridgeErrorCode::LinkButtonNotPressed => 101,
        BridgeErrorCode::DHCPCannotBeDisabled => 110,
        BridgeErrorCode::InvalidUpdateState => 111,
        BridgeErrorCode::DeviceIsSetToOff => 201,
        BridgeErrorCode::GroupCouldNotBeCreatedGroupFull => 301,
        BridgeErrorCode::DeviceCouldNotBeAddedGroupFull => 302,
        BridgeErrorCode::DeviceIsUnreachable => 304,
        BridgeErrorCode::UpdateOrDeleteGroupOfThisTypeNotAllowed => 305,
        BridgeErrorCode::LightAlreadyUsed => 306,
        BridgeErrorCode::SceneCouldNotBeCreated => 401,
        BridgeErrorCode::SceneCouldNotBeCreatedBufferFull => 402,
        BridgeErrorCode::SceneCouldNotBeRemoved => 403,
        BridgeErrorCode::NotAllowedToCreateSensorType => 501,
        BridgeErrorCode::SensorListIsFull => 502,
        BridgeErrorCode::RuleEngineFull => 601,
        BridgeErrorCode::ConditionError => 607,
        BridgeErrorCode::ActionError => 608,
        BridgeErrorCode::UnableToActivae => 609,
        BridgeErrorCode::ScheduleListIsFull => 701,
        BridgeErrorCode::ScheduleTimezoneNotValid => 702,
        BridgeErrorCode::ScheduleCannotSetTimeAndLocalTime => 703,
        BridgeErrorCode::CannotCreateSchedule => 704,
        BridgeErrorCode::CannotEnableScheduleTimeInPast => 705,
        BridgeErrorCode::CommandError => 706,
        BridgeErrorCode::SourceModelInvalid => 801,
        BridgeErrorCode::SourceFactoryNew => 802,
        BridgeErrorCode::InvalidState => 803,
        BridgeErrorCode::Other => 0,
    }
}

/// The named condition of a numeric code: the variant whose code it is, or
/// `Other` where no variant has it.
pub open spec fn classify(n: u16) -> BridgeErrorCode {
    match n {
        1 => BridgeErrorCode::UnauthorizedUser,
        2 => BridgeErrorCode::BodyContainsInvalidJson,
        3 => BridgeErrorCode::ResourceNotAvailable,
        4 => BridgeErrorCode::MethodNotAvailableForResource,
        5 => BridgeErrorCode::MissingParametersInBody,
        6 => BridgeErrorCode::ParameterNotAvailable,
        7 => BridgeErrorCode::InvalidValueForParameter,
        8 => BridgeErrorCode::ParameterIsNotModifiable,
        11 => BridgeErrorCode::TooManyItemsInList,
        12 => BridgeErrorCode::ProtalConnectionRequired,
        901 => BridgeErrorCode::InternalError,
        101 => BridgeErrorCode::LinkButtonNotPressed,
        110 => BridgeErrorCode::DHCPCannotBeDisabled,
        111 => BridgeErrorCode::InvalidUpdateState,
        201 => BridgeErrorCode::DeviceIsSetToOff,
        301 => BridgeErrorCode::GroupCouldNotBeCreatedGroupFull,
        302 => BridgeErrorCode::DeviceCouldNotBeAddedGroupFull,
        304 => BridgeErrorCode::DeviceIsUnreachable,
        305 => BridgeErrorCode::UpdateOrDeleteGroupOfThisTypeNotAllowed,
        306 => BridgeErrorCode::LightAlreadyUsed,
        401 => BridgeErrorCode::SceneCouldNotBeCreated,
        402 => BridgeErrorCode::SceneCouldNotBeCreatedBufferFull,
        403 => BridgeErrorCode::SceneCouldNotBeRemoved,
        501 => BridgeErrorCode::NotAllowedToCreateSensorType,
        502 => BridgeErrorCode::SensorListIsFull,
        601 => BridgeErrorCode::RuleEngineFull,
        607 => BridgeErrorCode::ConditionError,
        608 => BridgeErrorCode::ActionError,
        609 => BridgeErrorCode::UnableToActivae,
        701 => BridgeErrorCode::ScheduleListIsFull,
        702 => BridgeErrorCode::ScheduleTimezoneNotValid,
        703 => BridgeErrorCode::ScheduleCannotSetTimeAndLocalTime,
        704 => BridgeErrorCode::CannotCreateSchedule,
        705 => BridgeErrorCode::CannotEnableScheduleTimeInPast,
        706 => BridgeErrorCode::CommandError,
        801 => BridgeErrorCode::SourceModelInvalid,
        802 => BridgeErrorCode::SourceFactoryNew,
        803 => BridgeErrorCode::InvalidState,
        _ => BridgeErrorCode::Other,
    }
}

impl BridgeErrorCode {
    /// The numeric code of this condition (0 for `Other`)
    pub fn code(self) -> (r: u16)
        ensures
            r == code_of(self),
    {
        match self {
            BridgeErrorCode::UnauthorizedUser => 1,
            BridgeErrorCode::BodyContainsInvalidJson => 2,
            BridgeErrorCode::ResourceNotAvailable => 3,
            BridgeErrorCode::MethodNotAvailableForResource => 4,
            BridgeErrorCode::MissingParametersInBody => 5,
            BridgeErrorCode::ParameterNotAvailable => 6,
            BridgeErrorCode::InvalidValueForParameter => 7,
            BridgeErrorCode::ParameterIsNotModifiable => 8,
            BridgeErrorCode::TooManyItemsInList => 11,
            BridgeErrorCode::ProtalConnectionRequired => 12,
            BridgeErrorCode::InternalError => 901,
            BridgeErrorCode::LinkButtonNotPressed => 101,
            BridgeErrorCode::DHCPCannotBeDisabled => 110,
            BridgeErrorCode::InvalidUpdateState => 111,
            BridgeErrorCode::DeviceIsSetToOff => 201,
            BridgeErrorCode::GroupCouldNotBeCreatedGroupFull => 301,
            BridgeErrorCode::DeviceCouldNotBeAddedGroupFull => 302,
            BridgeErrorCode::DeviceIsUnreachable => 304,
            BridgeErrorCode::UpdateOrDeleteGroupOfThisTypeNotAllowed => 305,
            BridgeErrorCode::LightAlreadyUsed => 306,
            BridgeErrorCode::SceneCouldNotBeCreated => 401,
            BridgeErrorCode::SceneCouldNotBeCreatedBufferFull => 402,
            BridgeErrorCode::SceneCouldNotBeRemoved => 403,
            BridgeErrorCode::NotAllowedToCreateSensorType => 501,
            BridgeErrorCode::SensorListIsFull => 502,
            BridgeErrorCode::RuleEngineFull => 601,
            BridgeErrorCode::ConditionError => 607,
            BridgeErrorCode::ActionError => 608,
            BridgeErrorCode::UnableToActivae => 609,
            BridgeErrorCode::ScheduleListIsFull => 701,
            BridgeErrorCode::ScheduleTimezoneNotValid => 702,
            BridgeErrorCode::ScheduleCannotSetTimeAndLocalTime => 703,
            BridgeErrorCode::CannotCreateSchedule => 704,
            BridgeErrorCode::CannotEnableScheduleTimeInPast => 705,
            BridgeErrorCode::CommandError => 706,
            BridgeErrorCode::SourceModelInvalid => 801,
            BridgeErrorCode::SourceFactoryNew => 802,
            BridgeErrorCode::InvalidState => 803,
            BridgeErrorCode::Other => 0,
        }
    }
}

/// The table is one to one: a named condition's code classifies back to it, and
/// a code that classifies to a named condition is that condition's code. Every
/// code classifies to some condition, and only `Other` has code 0.
pub proof fn lemma_classify_table(n: u16, c: BridgeErrorCode)
    ensures
        c != BridgeErrorCode::Other ==> classify(code_of(c)) == c,
        classify(n) != BridgeErrorCode::Other ==> code_of(classify(n)) == n,
        code_of(c) == 0 <==> c == BridgeErrorCode::Other,
{
}

/// An error reported by the bridge itself
#[derive(Debug, Clone)]
pub struct BridgeError {
    /// The resource the error happened on
    pub address: String,
    /// A short description of the error
    pub description: String,
    /// The numeric error code the bridge reported
    pub code: u16,
}

impl BridgeError {
    /// The named condition of this error's code
    pub fn error(&self) -> (r: BridgeErrorCode)
        ensures
            r == classify(self.code),
    {
        BridgeErrorCode::from(self.code)
    }
}

/// What was wrong with a response that did not have the expected shape
#[derive(Debug, Copy, Clone, PartialEq, Eq, Structural)]
pub enum ProtocolIssue {
    /// An envelope held neither a success nor an error
    UnrecognizableResponse,
    /// A reply held another number of envelopes than one
    EnvelopeCount,
    /// A light listing was not an object of lights
    MalformedListing,
    /// A key of a light listing was not a decimal light id
    InvalidLightId,
}

/// Errors of the client
#[derive(Debug, Clone)]
pub enum HueError {
    /// The transport failed to complete the round trip
    Network(String),
    /// The response body was not valid JSON of the expected type
    Json(String),
    /// The response did not have the shape the protocol prescribes
    Protocol(ProtocolIssue),
    /// The bridge reported an error
    Bridge(BridgeError),
}

impl From<u16> for BridgeErrorCode {
    /// Looks a numeric code up in the table
    fn from(n: u16) -> (r: BridgeErrorCode) {
        match n {
            1 => BridgeErrorCode::UnauthorizedUser,
            2 => BridgeErrorCode::BodyContainsInvalidJson,
            3 => BridgeErrorCode::ResourceNotAvailable,
            4 => BridgeErrorCode::MethodNotAvailableForResource,
            5 => BridgeErrorCode::MissingParametersInBody,
            6 => BridgeErrorCode::ParameterNotAvailable,
            7 => BridgeErrorCode::InvalidValueForParameter,
            8 => BridgeErrorCode::ParameterIsNotModifiable,
            11 => BridgeErrorCode::TooManyItemsInList,
            12 => BridgeErrorCode::ProtalConnectionRequired,
            901 => BridgeErrorCode::InternalError,
            101 => BridgeErrorCode::LinkButtonNotPressed,
            110 => BridgeErrorCode::DHCPCannotBeDisabled,
            111 => BridgeErrorCode::InvalidUpdateState,
            201 => BridgeErrorCode::DeviceIsSetToOff,
            301 => BridgeErrorCode::GroupCouldNotBeCreatedGroupFull,
            302 => BridgeErrorCode::DeviceCouldNotBeAddedGroupFull,
            304 => BridgeErrorCode::DeviceIsUnreachable,
            305 => BridgeErrorCode::UpdateOrDeleteGroupOfThisTypeNotAllowed,
            306 => BridgeErrorCode::LightAlreadyUsed,
            401 => BridgeErrorCode::SceneCouldNotBeCreated,
            402 => BridgeErrorCode::SceneCouldNotBeCreatedBufferFull,
            403 => BridgeErrorCode::SceneCouldNotBeRemoved,
            501 => BridgeErrorCode::NotAllowedToCreateSensorType,
            502 => BridgeErrorCode::SensorListIsFull,
            601 => BridgeErrorCode::RuleEngineFull,
            607 => BridgeErrorCode::ConditionError,
            608 => BridgeErrorCode::ActionError,
            609 => BridgeErrorCode::UnableToActivae,
            701 => BridgeErrorCode::ScheduleListIsFull,
            702 => BridgeErrorCode::ScheduleTimezoneNotValid,
            703 => BridgeErrorCode::ScheduleCannotSetTimeAndLocalTime,
            704 => BridgeErrorCode::CannotCreateSchedule,
            705 => BridgeErrorCode::CannotEnableScheduleTimeInPast,
            706 => BridgeErrorCode::CommandError,
            801 => BridgeErrorCode::SourceModelInvalid,
            802 => BridgeErrorCode::SourceFactoryNew,
            803 => BridgeErrorCode::InvalidState,
            _ => BridgeErrorCode::Other,
        }
    }
}

impl vstd::std_specs::convert::FromSpecImpl<u16> for BridgeErrorCode {
    open spec fn obeys_from_spec() -> bool {
        true
    }

    open spec fn from_spec(n: u16) -> BridgeErrorCode {
        classify(n)
    }
}

} // verus!
