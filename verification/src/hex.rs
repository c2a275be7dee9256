//! The textual form of a hardware address.
//!
//! Six bytes become twelve lowercase hexadecimal digits, the bytes
//! separated by colons, as `00:1b:44:11:3a:b7`.

use vstd::prelude::*;

verus! {

/// The lowercase hexadecimal digit for a value below sixteen.
pub open spec fn hex_digit(d: nat) -> char {
    if d == 0 {
        '0'
    } else if d == 1 {
        '1'
    } else if d == 2 {
        '2'
    } else if d == 3 {
        '3'
    } else if d == 4 {
        '4'
    } else if d == 5 {
        '5'
    } else if d == 6 {
        '6'
    } else if d == 7 {
        '7'
    } else if d == 8 {
        '8'
    } else if d == 9 {
        '9'
    } else if d == 10 {
        'a'
    } else if d == 11 {
        'b'
    } else if d == 12 {
        'c'
    } else if d == 13 {
        'd'
    } else if d == 14 {
        'e'
    } else {
        'f'
    }
}

/// The two hexadecimal digits of one byte.
pub open spec fn byte_hex(b: u8) -> Seq<char> {
    seq![hex_digit((b / 16) as nat), hex_digit((b % 16) as nat)]
}

/// The colon-separated hexadecimal form of a six-byte MAC.
pub open spec fn mac_hex_of(m: Seq<u8>) -> Seq<char> {
    byte_hex(m[0]) + seq![':'] + byte_hex(m[1]) + seq![':'] + byte_hex(m[2]) + seq![':']
        + byte_hex(m[3]) + seq![':'] + byte_hex(m[4]) + seq![':'] + byte_hex(m[5])
}

/// The one-character string of a hexadecimal digit.
fn hex_char_str(d: u8) -> (s: &'static str)
    requires
        d < 16,
    ensures
        s@ == seq![hex_digit(d as nat)],
{
    match d {
        0 => {
            proof {
                reveal_strlit("0");
                assert("0"@ =~= seq!['0']);
            }
            "0"
        },
        1 => {
            proof {
                reveal_strlit("1");
                assert("1"@ =~= seq!['1']);
            }
            "1"
        },
        2 => {
            proof {
                reveal_strlit("2");
                assert("2"@ =~= seq!['2']);
            }
            "2"
        },
        3 => {
            proof {
                reveal_strlit("3");
                assert("3"@ =~= seq!['3']);
            }
            "3"
        },
        4 => {
            proof {
                reveal_strlit("4");
                assert("4"@ =~= seq!['4']);
            }
            "4"
        },
        5 => {
            proof {
                reveal_strlit("5");
                assert("5"@ =~= seq!['5']);
            }
            "5"
        },
        6 => {
            proof {
                reveal_strlit("6");
                assert("6"@ =~= seq!['6']);
            }
            "6"
        },
        7 => {
            proof {
                reveal_strlit("7");
                assert("7"@ =~= seq!['7']);
            }
            "7"
        },
        8 => {
            proof {
                reveal_strlit("8");
                assert("8"@ =~= seq!['8']);
            }
            "8"
        },
        9 => {
            proof {
                reveal_strlit("9");
                assert("9"@ =~= seq!['9']);
            }
            "9"
        },
        10 => {
            proof {
                reveal_strlit("a");
                assert("a"@ =~= seq!['a']);
            }
            "a"
        },
        11 => {
            proof {
                reveal_strlit("b");
                assert("b"@ =~= seq!['b']);
            }
            "b"
        },
        12 => {
            proof {
                reveal_strlit("c");
                assert("c"@ =~= seq!['c']);
            }
            "c"
        },
        13 => {
            proof {
                reveal_strlit("d");
                assert("d"@ =~= seq!['d']);
            }
            "d"
        },
        14 => {
            proof {
                reveal_strlit("e");
                assert("e"@ =~= seq!['e']);
            }
            "e"
        },
        _ => {
            proof {
                reveal_strlit("f");
                assert("f"@ =~= seq!['f']);
            }
            "f"
        },
    }
}

/// Appends the colon separator.
fn push_colon(s: &mut String)
    ensures
        final(s)@ == old(s)@ + seq![':'],
{
    proof {
        reveal_strlit(":");
        assert(":"@ =~= seq![':']);
    }
    s.append(":");
}

/// Appends the two hexadecimal digits of one byte.
fn push_byte_hex(s: &mut String, b: u8)
    ensures
        final(s)@ == old(s)@ + byte_hex(b),
{
    s.append(hex_char_str(b / 16));
    s.append(hex_char_str(b % 16));
    proof {
        assert(s@ =~= old(s)@ + byte_hex(b));
    }
}

/// Formats a MAC address as colon-separated lowercase hexadecimal.
pub fn mac_hex(mac: [u8; 6]) -> (s: String)
    ensures
        s@ == mac_hex_of(mac@),
{
    let mut s = String::new();
    push_byte_hex(&mut s, mac[0]);
    push_colon(&mut s);
    push_byte_hex(&mut s, mac[1]);
    push_colon(&mut s);
    push_byte_hex(&mut s, mac[2]);
    push_colon(&mut s);
    push_byte_hex(&mut s, mac[3]);
    push_colon(&mut s);
    push_byte_hex(&mut s, mac[4]);
    push_colon(&mut s);
    push_byte_hex(&mut s, mac[5]);
    proof {
        assert(s@ =~= mac_hex_of(mac@));
    }
    s
}

} // verus!
