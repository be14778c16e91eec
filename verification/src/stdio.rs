use vstd::prelude::*;
use vstd::string::StringExecFns;

verus! {

/// Symbolic policy for wiring one of the child's standard streams.
#[derive(Clone, Copy, PartialEq, Eq, Structural, Debug)]
pub enum StdioMode {
    /// The child shares the host's own stream.
    Inherit,
    /// A fresh OS pipe is created; the host-side end becomes a stream resource.
    Piped,
    /// The child's stream is connected to the platform's null device.
    Null,
}

/// The three mode strings the host's decoder may hand over.
pub open spec fn is_valid_mode(s: Seq<char>) -> bool {
    s == "inherit"@ || s == "piped"@ || s == "null"@
}

/// Which policy a valid mode string denotes.
pub open spec fn mode_of(s: Seq<char>) -> StdioMode
    recommends
        is_valid_mode(s),
{
    if s == "inherit"@ {
        StdioMode::Inherit
    } else if s == "piped"@ {
        StdioMode::Piped
    } else {
        StdioMode::Null
    }
}

/// Stdio Policy Resolver: turn a symbolic mode string into the stream policy.
/// Anything but the three recognized strings is a contract violation by the
/// caller (the strings come from a trusted upstream decoder, not from input),
/// so such strings are excluded here rather than handled.
pub fn subprocess_stdio_map(s: &str) -> (r: StdioMode)
    requires
        is_valid_mode(s@),
    ensures
        r == mode_of(s@),
{
    let given = String::from_str(s);
    if given == String::from_str("inherit") {
        StdioMode::Inherit
    } else if given == String::from_str("piped") {
        StdioMode::Piped
    } else {
        StdioMode::Null
    }
}

/// How one standard stream of the child will be wired: either by duplicating
/// the OS stream behind an existing registry identifier, or per its symbolic
/// mode. An identifier of 0 means "none supplied"; any identifier above 0
/// takes precedence over the mode.
#[derive(Clone, Copy, PartialEq, Eq, Structural, Debug)]
pub enum StreamRoute {
    /// Duplicate the OS stream backing this registry identifier and hand the
    /// duplicate to the child; no host-side resource is created for it.
    Duplicate(u32),
    /// Configure the stream per the symbolic policy.
    Configure(StdioMode),
}

/// The route a (mode, identifier) pair resolves to.
pub open spec fn route_of(mode: Seq<char>, rid: u32) -> StreamRoute {
    if rid > 0 {
        StreamRoute::Duplicate(rid)
    } else {
        StreamRoute::Configure(mode_of(mode))
    }
}

/// Resolve one stream of a spawn request: the identifier, when supplied,
/// takes precedence over the symbolic mode.
pub fn route_stream(mode: &str, rid: u32) -> (r: StreamRoute)
    requires
        rid == 0 ==> is_valid_mode(mode@),
    ensures
        r == route_of(mode@, rid),
{
    if rid > 0 {
        StreamRoute::Duplicate(rid)
    } else {
        StreamRoute::Configure(subprocess_stdio_map(mode))
    }
}

} // verus!
