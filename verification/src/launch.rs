use vstd::prelude::*;
use vstd::string::StringExecFns;

verus! {

// ---------------------------------------------------------------------------
// Decimal rendering for the debug-port flag
// ---------------------------------------------------------------------------

/// The decimal digit character for `d` (meaningful for 0 through 9).
pub open spec fn digit_char(d: int) -> char {
    if d == 0 {
        '0'
    } else if d == 1 {
        '1'
    } else if d == 2 {
        '2'
    } else if d == 3 {
        '3'
    } else if d == 4 {
        '4'
    } else if d == 5 {
        '5'
    } else if d == 6 {
        '6'
    } else if d == 7 {
        '7'
    } else if d == 8 {
        '8'
    } else {
        '9'
    }
}

/// The decimal rendering of `n`, most significant digit first (meaningful
/// for nonnegative `n`).
pub open spec fn decimal_digits(n: int) -> Seq<char>
    decreases n,
{
    if n < 10 {
        seq![digit_char(n)]
    } else {
        decimal_digits(n / 10).push(digit_char(n % 10))
    }
}

/// The single-character string for the decimal digit `d`.
fn digit_str(d: u16) -> (r: &'static str)
    requires
        d < 10,
    ensures
        r@ == seq![digit_char(d as int)],
{
    match d {
        0 => {
            proof {
                reveal_strlit("0");
                assert("0"@ =~= seq![digit_char(0)]);
            }
            "0"
        },
        1 => {
            proof {
                reveal_strlit("1");
                assert("1"@ =~= seq![digit_char(1)]);
            }
            "1"
        },
        2 => {
            proof {
                reveal_strlit("2");
                assert("2"@ =~= seq![digit_char(2)]);
            }
            "2"
        },
        3 => {
            proof {
                reveal_strlit("3");
                assert("3"@ =~= seq![digit_char(3)]);
            }
            "3"
        },
        4 => {
            proof {
                reveal_strlit("4");
                assert("4"@ =~= seq![digit_char(4)]);
            }
            "4"
        },
        5 => {
            proof {
                reveal_strlit("5");
                assert("5"@ =~= seq![digit_char(5)]);
            }
            "5"
        },
        6 => {
            proof {
                reveal_strlit("6");
                assert("6"@ =~= seq![digit_char(6)]);
            }
            "6"
        },
        7 => {
            proof {
                reveal_strlit("7");
                assert("7"@ =~= seq![digit_char(7)]);
            }
            "7"
        },
        8 => {
            proof {
                reveal_strlit("8");
                assert("8"@ =~= seq![digit_char(8)]);
            }
            "8"
        },
        _ => {
            proof {
                reveal_strlit("9");
                assert("9"@ =~= seq![digit_char(9)]);
            }
            "9"
        },
    }
}

/// `n`, written in decimal.
pub fn u16_decimal(n: u16) -> (s: String)
    ensures
        s@ == decimal_digits(n as int),
    decreases n,
{
    if n < 10 {
        digit_str(n).to_owned()
    } else {
        let mut s = u16_decimal(n / 10);
        s.append(digit_str(n % 10));
        proof {
            assert(s@ =~= decimal_digits(n as int));
        }
        s
    }
}

// ---------------------------------------------------------------------------
// The planned process invocation
// ---------------------------------------------------------------------------

/// The exact invocation the caller is asked to spawn: the located browser
/// binary with the flags that disable first-run UX, the default-browser
/// prompt, default apps and popup blocking, plus the remote-debugging port
/// and the profile directory.
#[derive(Debug, PartialEq, Eq)]
pub struct LaunchCommand {
    pub program: String,
    pub args: Vec<String>,
}

/// What a launch attempt asks of the caller: nothing, because a process is
/// already held, or spawning the given command.
#[derive(Debug, PartialEq, Eq)]
pub enum LaunchDirective {
    AlreadyRunning,
    Spawn(LaunchCommand),
}

/// The argument list a launch uses, in order.
pub open spec fn launch_args(port: u16, profile_dir: Seq<char>) -> Seq<Seq<char>> {
    seq![
        "--remote-debugging-port="@ + decimal_digits(port as int),
        "--no-first-run"@,
        "--no-default-browser-check"@,
        "--disable-default-apps"@,
        "--disable-popup-blocking"@,
        "--user-data-dir="@ + profile_dir,
    ]
}

/// Assemble the invocation of `program` with the fixed flag list for
/// `port` and `profile_dir`.
pub fn build_launch_command(program: String, port: u16, profile_dir: &str) -> (c: LaunchCommand)
    ensures
        c.program == program,
        c.args.deep_view() == launch_args(port, profile_dir@),
{
    let mut args: Vec<String> = Vec::new();
    args.push("--remote-debugging-port=".to_owned().concat(u16_decimal(port).as_str()));
    args.push("--no-first-run".to_owned());
    args.push("--no-default-browser-check".to_owned());
    args.push("--disable-default-apps".to_owned());
    args.push("--disable-popup-blocking".to_owned());
    args.push("--user-data-dir=".to_owned().concat(profile_dir));
    proof {
        assert(args.deep_view() =~= launch_args(port, profile_dir@));
    }
    LaunchCommand { program, args }
}

} // verus!
