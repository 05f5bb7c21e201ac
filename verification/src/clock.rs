//! Local wall-clock timestamps at second resolution, rendered as
//! `YYYY-MM-DD HH:MM:SS`.  The host supplies the current local time as
//! plain calendar fields; rendering is verified here, so a fixed clock
//! can be injected in tests.

use vstd::prelude::*;

verus! {

/// One local calendar time, at second resolution.
#[derive(Clone, Copy, Debug)]
pub struct Timestamp {
    pub year: u16,
    pub month: u8,
    pub day: u8,
    pub hour: u8,
    pub minute: u8,
    pub second: u8,
}

impl Timestamp {
    /// Field ranges under which the rendering is the usual fixed-width
    /// calendar form.
    pub open spec fn wf(self) -> bool {
        &&& self.year <= 9999
        &&& 1 <= self.month <= 12
        &&& 1 <= self.day <= 31
        &&& self.hour <= 23
        &&& self.minute <= 59
        &&& self.second <= 59
    }
}

/// The decimal digit character for `d`, for `0 <= d <= 9`.
pub open spec fn digit_char(d: int) -> char {
    if d == 0 {
        '0'
    } else if d == 1 {
        '1'
    } else if d == 2 {
        '2'
    } else if d == 3 {
        '3'
    } else if d == 4 {
        '4'
    } else if d == 5 {
        '5'
    } else if d == 6 {
        '6'
    } else if d == 7 {
        '7'
    } else if d == 8 {
        '8'
    } else {
        '9'
    }
}

/// `n` zero-padded to two decimal digits.
pub open spec fn two_digit_text(n: int) -> Seq<char> {
    seq![digit_char(n / 10), digit_char(n % 10)]
}

/// `n` zero-padded to four decimal digits.
pub open spec fn four_digit_text(n: int) -> Seq<char> {
    seq![
        digit_char(n / 1000),
        digit_char((n / 100) % 10),
        digit_char((n / 10) % 10),
        digit_char(n % 10),
    ]
}

/// The rendering of a well-formed timestamp: `YYYY-MM-DD HH:MM:SS`.
pub open spec fn timestamp_text(t: Timestamp) -> Seq<char> {
    four_digit_text(t.year as int) + "-"@ + two_digit_text(t.month as int) + "-"@
        + two_digit_text(t.day as int) + " "@ + two_digit_text(t.hour as int) + ":"@
        + two_digit_text(t.minute as int) + ":"@ + two_digit_text(t.second as int)
}

fn digit_str(d: u8) -> (s: &'static str)
    requires
        d <= 9,
    ensures
        s@ == seq![digit_char(d as int)],
{
    match d {
        0 => {
            proof {
                reveal_strlit("0");
                assert("0"@ =~= seq![digit_char(0)]);
            }
            "0"
        },
        1 => {
            proof {
                reveal_strlit("1");
                assert("1"@ =~= seq![digit_char(1)]);
            }
            "1"
        },
        2 => {
            proof {
                reveal_strlit("2");
                assert("2"@ =~= seq![digit_char(2)]);
            }
            "2"
        },
        3 => {
            proof {
                reveal_strlit("3");
                assert("3"@ =~= seq![digit_char(3)]);
            }
            "3"
        },
        4 => {
            proof {
                reveal_strlit("4");
                assert("4"@ =~= seq![digit_char(4)]);
            }
            "4"
        },
        5 => {
            proof {
                reveal_strlit("5");
                assert("5"@ =~= seq![digit_char(5)]);
            }
            "5"
        },
        6 => {
            proof {
                reveal_strlit("6");
                assert("6"@ =~= seq![digit_char(6)]);
            }
            "6"
        },
        7 => {
            proof {
                reveal_strlit("7");
                assert("7"@ =~= seq![digit_char(7)]);
            }
            "7"
        },
        8 => {
            proof {
                reveal_strlit("8");
                assert("8"@ =~= seq![digit_char(8)]);
            }
            "8"
        },
        _ => {
            proof {
                reveal_strlit("9");
                assert("9"@ =~= seq![digit_char(9)]);
            }
            "9"
        },
    }
}

fn push_two_digits(out: &mut String, n: u8)
    requires
        n <= 99,
    ensures
        final(out)@ == old(out)@ + two_digit_text(n as int),
{
    out.append(digit_str(n / 10));
    out.append(digit_str(n % 10));
    proof {
        assert(final(out)@ =~= old(out)@ + two_digit_text(n as int));
    }
}

fn push_four_digits(out: &mut String, n: u16)
    requires
        n <= 9999,
    ensures
        final(out)@ == old(out)@ + four_digit_text(n as int),
{
    out.append(digit_str((n / 1000) as u8));
    out.append(digit_str(((n / 100) % 10) as u8));
    out.append(digit_str(((n / 10) % 10) as u8));
    out.append(digit_str((n % 10) as u8));
    proof {
        assert(final(out)@ =~= old(out)@ + four_digit_text(n as int));
    }
}

impl Timestamp {
    /// Renders this timestamp as `YYYY-MM-DD HH:MM:SS`.
    pub fn render(&self) -> (s: String)
        requires
            self.wf(),
        ensures
            s@ == timestamp_text(*self),
    {
        let mut s = String::new();
        push_four_digits(&mut s, self.year);
        s.append("-");
        push_two_digits(&mut s, self.month);
        s.append("-");
        push_two_digits(&mut s, self.day);
        s.append(" ");
        push_two_digits(&mut s, self.hour);
        s.append(":");
        push_two_digits(&mut s, self.minute);
        s.append(":");
        push_two_digits(&mut s, self.second);
        proof {
            assert(s@ =~= timestamp_text(*self));
        }
        s
    }
}

} // verus!
