use vstd::prelude::*;

verus! {

/// The character of decimal digit `d`.
pub open spec fn digit_char(d: nat) -> char {
    seq!['0', '1', '2', '3', '4', '5', '6', '7', '8', '9'][d as int]
}

/// The decimal text of `n`, without leading zeros.
pub open spec fn decimal(n: nat) -> Seq<char>
    decreases n,
{
    if n < 10 {
        seq![digit_char(n)]
    } else {
        decimal(n / 10) + seq![digit_char(n % 10)]
    }
}

/// Version of the core driver, as the driver reports it.
#[derive(Clone, Copy, Debug, PartialEq, Eq, Structural)]
pub struct CoreVersion {
    pub major: u32,
    pub minor: u32,
    pub patch: u32,
    pub build: u32,
}

impl CoreVersion {
    /// Whether a driver of this version speaks the protocol of major version `expected_major`.
    pub fn is_compatible(&self, expected_major: u32) -> (r: bool)
        ensures
            r == (self.major == expected_major),
    {
        self.major == expected_major
    }
}

/// The text `major.minor.patch.build` of version `v`.
pub open spec fn version_text(v: CoreVersion) -> Seq<char> {
    decimal(v.major as nat) + seq!['.'] + decimal(v.minor as nat) + seq!['.'] + decimal(v.patch as nat)
        + seq!['.'] + decimal(v.build as nat)
}

fn append_digit(s: &mut String, d: u32)
    requires
        d < 10,
    ensures
        final(s)@ == old(s)@ + seq![digit_char(d as nat)],
{
    match d {
        0 => {
            proof {
                reveal_strlit("0");
            }
            s.append("0");
        },
        1 => {
            proof {
                reveal_strlit("1");
            }
            s.append("1");
        },
        2 => {
            proof {
                reveal_strlit("2");
            }
            s.append("2");
        },
        3 => {
            proof {
                reveal_strlit("3");
            }
            s.append("3");
        },
        4 => {
            proof {
                reveal_strlit("4");
            }
            s.append("4");
        },
        5 => {
            proof {
                reveal_strlit("5");
            }
            s.append("5");
        },
        6 => {
            proof {
                reveal_strlit("6");
            }
            s.append("6");
        },
        7 => {
            proof {
                reveal_strlit("7");
            }
            s.append("7");
        },
        8 => {
            proof {
                reveal_strlit("8");
            }
            s.append("8");
        },
        _ => {
            proof {
                reveal_strlit("9");
            }
            s.append("9");
        },
    }
}

fn append_decimal(s: &mut String, n: u32)
    ensures
        final(s)@ == old(s)@ + decimal(n as nat),
    decreases n,
{
    if n >= 10 {
        append_decimal(s, n / 10);
    }
    append_digit(s, n % 10);
    assert(s@ =~= old(s)@ + decimal(n as nat));
}

fn append_dot(s: &mut String)
    ensures
        final(s)@ == old(s)@ + seq!['.'],
{
    proof {
        reveal_strlit(".");
    }
    s.append(".");
}

impl CoreVersion {
    /// The version as `major.minor.patch.build`.
    pub fn to_string(&self) -> (r: String)
        ensures
            r@ == version_text(*self),
    {
        let mut s = String::new();
        append_decimal(&mut s, self.major);
        append_dot(&mut s);
        append_decimal(&mut s, self.minor);
        append_dot(&mut s);
        append_decimal(&mut s, self.patch);
        append_dot(&mut s);
        append_decimal(&mut s, self.build);
        assert(s@ =~= version_text(*self));
        s
    }
}

/// The version line of the tool: its build identifier, followed, when the
/// driver could be asked, by ` core ` and the driver's version.
pub open spec fn version_info_text(build: Seq<char>, core: Option<CoreVersion>) -> Seq<char> {
    match core {
        None => build,
        Some(v) => build + seq![' ', 'c', 'o', 'r', 'e', ' '] + version_text(v),
    }
}

/// The version line of the tool for build identifier `build` and, if the
/// driver was reachable, its version `core`.
pub fn get_version_info(build: &str, core: Option<CoreVersion>) -> (r: String)
    ensures
        r@ == version_info_text(build@, core),
{
    let mut s = String::new();
    s.append(build);
    if let Some(v) = core {
        proof {
            reveal_strlit(" core ");
        }
        s.append(" core ");
        let text = v.to_string();
        s.append(text.as_str());
        assert(s@ =~= version_info_text(build@, core));
    } else {
        assert(s@ =~= build@);
    }
    s
}

} // verus!
