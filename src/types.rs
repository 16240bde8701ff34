use vstd::prelude::*;

use crate::error::{Error, ErrorModel};

verus! {

/// The execution topology selected for one run.
#[derive(Debug, Clone, Copy, PartialEq, Eq, Structural)]
pub enum Mode {
    LocalCpu,
    LocalGpu,
    OpenAi,
}

/// The ASCII lower-case form of a character; other characters are kept.
pub open spec fn ascii_lower(c: char) -> char {
    if 'A' <= c && c <= 'Z' {
        "abcdefghijklmnopqrstuvwxyz"@[(c as u32 - 'A' as u32) as int]
    } else {
        c
    }
}

/// The ASCII lower-case form of a character.
pub fn lower_char(c: char) -> (r: char)
    ensures
        r == ascii_lower(c),
{
    if 'A' <= c && c <= 'Z' {
        let letters = "abcdefghijklmnopqrstuvwxyz";
        proof {
            reveal_strlit("abcdefghijklmnopqrstuvwxyz");
        }
        letters.get_char((c as u32 - 'A' as u32) as usize)
    } else {
        c
    }
}

/// The mode a lower-cased name denotes, if any.
pub open spec fn mode_of_name(s: Seq<char>) -> Option<Mode> {
    let l = s.map_values(|c: char| ascii_lower(c));
    if l == "localcpu"@ {
        Some(Mode::LocalCpu)
    } else if l == "localgpu"@ {
        Some(Mode::LocalGpu)
    } else if l == "openai"@ {
        Some(Mode::OpenAi)
    } else {
        None
    }
}

/// Whether `s`, lower-cased, is the lower-case name `t`.
fn matches_lowered(s: &str, t: &str) -> (r: bool)
    ensures
        r == (s@.map_values(|c: char| ascii_lower(c)) == t@),
{
    let n = s.unicode_len();
    if n != t.unicode_len() {
        proof {
            assert(s@.map_values(|c: char| ascii_lower(c)).len() != t@.len());
        }
        return false;
    }
    let mut i: usize = 0;
    while i < n
        invariant
            n == s@.len(),
            n == t@.len(),
            i <= n,
            forall|j: int| 0 <= j < i ==> ascii_lower(#[trigger] s@[j]) == t@[j],
        decreases n - i,
    {
        let c = s.get_char(i);
        let d = t.get_char(i);
        if lower_char(c) != d {
            proof {
                let l = s@.map_values(|c: char| ascii_lower(c));
                assert(l[i as int] != t@[i as int]);
            }
            return false;
        }
        i = i + 1;
    }
    proof {
        assert(s@.map_values(|c: char| ascii_lower(c)) =~= t@);
    }
    true
}

impl std::default::Default for Mode {
    /// The hosted API.
    fn default() -> (r: Mode)
        ensures
            r == Mode::OpenAi,
    {
        Mode::OpenAi
    }
}

impl std::str::FromStr for Mode {
    type Err = Error;

    fn from_str(s: &str) -> Result<Mode, Error> {
        Mode::parse(s)
    }
}

impl Mode {
    /// Whether this is the local mode with the GPU profile.
    pub fn is_local_gpu(&self) -> (r: bool)
        ensures
            r == (*self == Mode::LocalGpu),
    {
        *self == Mode::LocalGpu
    }

    /// Parses a mode name, ignoring ASCII case.
    pub fn parse(s: &str) -> (r: Result<Mode, Error>)
        ensures
            match mode_of_name(s@) {
                Some(m) => r == Ok::<Mode, Error>(m),
                None => r is Err && r->Err_0@ == ErrorModel::InvalidMode(s@),
            },
    {
        if matches_lowered(s, "localcpu") {
            Ok(Mode::LocalCpu)
        } else if matches_lowered(s, "localgpu") {
            Ok(Mode::LocalGpu)
        } else if matches_lowered(s, "openai") {
            Ok(Mode::OpenAi)
        } else {
            Err(Error::InvalidMode(String::from_str(s)))
        }
    }
}

} // verus!
