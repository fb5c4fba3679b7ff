//! The command-line surface of the renderer.
//!
//! Exactly one flag is recognized: `-warp` (or `/warp`), compared without
//! regard to ASCII case, which forces selection of the software adapter.
//! The surrounding application collects the raw argument bytes from the OS
//! and hands them to [`CommandLine::from_args`].

use vstd::prelude::*;

verus! {

/// Parsed command-line options of the renderer.
#[derive(Clone, Copy, Debug, Default, PartialEq, Eq, Structural)]
pub struct CommandLine {
    /// Bind the platform's software (reference) adapter instead of
    /// enumerating hardware.
    pub use_warp_device: bool,
}

/// ASCII lower-casing of a single byte; bytes outside `A..=Z` are unchanged.
pub open spec fn spec_ascii_lower(b: u8) -> u8 {
    if 65 <= b && b <= 90 {
        (b + 32) as u8
    } else {
        b
    }
}

/// The software-adapter flag: five bytes spelling `warp` after ASCII
/// lower-casing, introduced by `-` (byte 45) or `/` (byte 47).
pub open spec fn spec_is_warp_flag(s: Seq<u8>) -> bool {
    &&& s.len() == 5
    &&& (s[0] == 45 || s[0] == 47)
    &&& spec_ascii_lower(s[1]) == 119
    &&& spec_ascii_lower(s[2]) == 97
    &&& spec_ascii_lower(s[3]) == 114
    &&& spec_ascii_lower(s[4]) == 112
}

/// ASCII lower-casing of a single byte.
fn ascii_lower(b: u8) -> (r: u8)
    ensures
        r == spec_ascii_lower(b),
{
    if 65 <= b && b <= 90 {
        b + 32
    } else {
        b
    }
}

/// True exactly when `arg` spells the software-adapter flag.
pub fn is_warp_flag(arg: &[u8]) -> (r: bool)
    ensures
        r == spec_is_warp_flag(arg@),
{
    if arg.len() != 5 {
        return false;
    }
    let lead = arg[0];
    (lead == 45 || lead == 47) && ascii_lower(arg[1]) == 119 && ascii_lower(arg[2]) == 97
        && ascii_lower(arg[3]) == 114 && ascii_lower(arg[4]) == 112
}

impl CommandLine {
    /// Scans every argument; the software adapter is requested exactly when
    /// some argument spells the flag.
    pub fn from_args(args: &Vec<Vec<u8>>) -> (c: CommandLine)
        ensures
            c.use_warp_device <==> exists|i: int|
                0 <= i < args@.len() && spec_is_warp_flag(#[trigger] args@[i]@),
    {
        let mut use_warp_device = false;
        let mut k: usize = 0;
        while k < args.len()
            invariant
                k <= args.len(),
                use_warp_device <==> exists|i: int|
                    0 <= i < k && spec_is_warp_flag(#[trigger] args@[i]@),
            decreases args.len() - k,
        {
            if is_warp_flag(args[k].as_slice()) {
                use_warp_device = true;
            }
            k = k + 1;
        }
        CommandLine { use_warp_device }
    }
}

} // verus!
