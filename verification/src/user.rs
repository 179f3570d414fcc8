use vstd::prelude::*;
use vstd::string::StringExecFns;

verus! {

broadcast use vstd::string::group_string_axioms;

/// A user's 128-bit random identifier, held as its integer value
/// (the big-endian interpretation of the identifier's 16 bytes).
#[derive(Debug, Clone, Copy, PartialEq, Eq, Hash)]
pub struct UserId(pub u128);

impl View for UserId {
    type V = u128;

    open spec fn view(&self) -> u128 {
        self.0
    }
}

/// The 16 time-mid bits of a 128-bit user identifier: bytes 4 and 5
/// of the big-endian representation, so bits 80..96 of the value.
pub open spec fn time_mid_of(user: u128) -> u16 {
    ((user >> 80) & 0xFFFF) as u16
}

/// The character of one lowercase hexadecimal digit.
pub open spec fn hex_char(d: int) -> char {
    if d == 0 {
        '0'
    } else if d == 1 {
        '1'
    } else if d == 2 {
        '2'
    } else if d == 3 {
        '3'
    } else if d == 4 {
        '4'
    } else if d == 5 {
        '5'
    } else if d == 6 {
        '6'
    } else if d == 7 {
        '7'
    } else if d == 8 {
        '8'
    } else if d == 9 {
        '9'
    } else if d == 10 {
        'a'
    } else if d == 11 {
        'b'
    } else if d == 12 {
        'c'
    } else if d == 13 {
        'd'
    } else if d == 14 {
        'e'
    } else {
        'f'
    }
}

/// Nibble `i`, counted from the most significant end, of a 128-bit
/// value.
pub open spec fn nibble(v: u128, i: int) -> int {
    (((v >> (((31 - i) * 4) as u128)) & 0xF) as int)
}

/// How many hyphens precede output position `j` of the hyphenated
/// form.
pub open spec fn hyphens_before(j: int) -> int {
    if j > 23 {
        4
    } else if j > 18 {
        3
    } else if j > 13 {
        2
    } else if j > 8 {
        1
    } else {
        0
    }
}

/// The canonical hyphenated form of a 128-bit identifier: groups of
/// 8, 4, 4, 4 and 12 lowercase hex digits.
pub open spec fn uuid_chars(v: u128) -> Seq<char> {
    Seq::new(
        36,
        |j: int|
            if j == 8 || j == 13 || j == 18 || j == 23 {
                '-'
            } else {
                hex_char(nibble(v, j - hyphens_before(j)))
            },
    )
}

/// A one-character string slice for a single lowercase hex digit.
fn hex_str(d: u8) -> (r: &'static str)
    requires
        d < 16,
    ensures
        r@ =~= seq![hex_char(d as int)],
{
    if d < 10 {
        crate::numstr::digit_str(d as u128)
    } else if d == 10 {
        proof {
            reveal_strlit("a");
            assert("a"@ =~= seq!['a']);
        }
        "a"
    } else if d == 11 {
        proof {
            reveal_strlit("b");
            assert("b"@ =~= seq!['b']);
        }
        "b"
    } else if d == 12 {
        proof {
            reveal_strlit("c");
            assert("c"@ =~= seq!['c']);
        }
        "c"
    } else if d == 13 {
        proof {
            reveal_strlit("d");
            assert("d"@ =~= seq!['d']);
        }
        "d"
    } else if d == 14 {
        proof {
            reveal_strlit("e");
            assert("e"@ =~= seq!['e']);
        }
        "e"
    } else {
        proof {
            reveal_strlit("f");
            assert("f"@ =~= seq!['f']);
        }
        "f"
    }
}

impl UserId {
    pub fn from_u128(value: u128) -> (r: Self)
        ensures
            r@ == value,
    {
        UserId(value)
    }

    pub fn as_u128(&self) -> (r: u128)
        ensures
            r == self@,
    {
        self.0
    }

    /// The submitter-entropy bits taken from this identifier.
    pub fn time_mid(&self) -> (r: u16)
        ensures
            r == time_mid_of(self@),
    {
        let v = self.0;
        proof {
            assert((v >> 80) & 0xFFFF < 0x10000) by (bit_vector);
        }
        ((v >> 80) & 0xFFFF) as u16
    }

    /// The canonical hyphenated string form of the identifier.
    pub fn hyphenated_string(&self) -> (r: String)
        ensures
            r@ == uuid_chars(self@),
    {
        let v = self.0;
        let mut out = String::new();
        let mut j: usize = 0;
        while j < 36
            invariant
                j <= 36,
                out@ == uuid_chars(v).take(j as int),
            decreases 36 - j,
        {
            if j == 8 || j == 13 || j == 18 || j == 23 {
                out.append("-");
                proof {
                    reveal_strlit("-");
                    assert("-"@ =~= seq!['-']);
                    assert(out@ =~= uuid_chars(v).take(j as int + 1));
                }
            } else {
                let h: usize = if j > 23 {
                    4
                } else if j > 18 {
                    3
                } else if j > 13 {
                    2
                } else if j > 8 {
                    1
                } else {
                    0
                };
                let idx: usize = j - h;
                let shift: u128 = ((31 - idx) as u128) * 4;
                proof {
                    assert((v >> shift) & 0xF < 16) by (bit_vector);
                    assert(shift == ((31 - (idx as int)) * 4) as u128);
                }
                let nib: u8 = ((v >> shift) & 0xF) as u8;
                out.append(hex_str(nib));
                proof {
                    assert(nib as int == nibble(v, j as int - hyphens_before(j as int)));
                    assert(out@ =~= uuid_chars(v).take(j as int + 1));
                }
            }
            j += 1;
        }
        proof {
            assert(uuid_chars(v).take(36) =~= uuid_chars(v));
        }
        out
    }
}

/// A stored account, including its credential hash.
#[derive(Debug, Clone)]
pub struct User {
    pub user_id: UserId,
    pub email: String,
    pub username: String,
    pub password_hash: String,
    pub is_validated: bool,
    pub github: Option<String>,
    pub website: Option<String>,
    pub bio: Option<String>,
    pub first_name: Option<String>,
    pub last_name: Option<String>,
}

/// The account as handed to clients: every field of `User` except
/// the credential hash.
#[derive(Debug, Clone)]
pub struct SafeUser {
    pub user_id: UserId,
    pub email: String,
    pub username: String,
    pub is_validated: bool,
    pub github: Option<String>,
    pub website: Option<String>,
    pub bio: Option<String>,
    pub first_name: Option<String>,
    pub last_name: Option<String>,
}

impl From<User> for SafeUser {
    fn from(user: User) -> (r: Self) {
        SafeUser {
            user_id: user.user_id,
            email: user.email,
            username: user.username,
            is_validated: user.is_validated,
            github: user.github,
            website: user.website,
            bio: user.bio,
            first_name: user.first_name,
            last_name: user.last_name,
        }
    }
}

impl vstd::std_specs::convert::FromSpecImpl<User> for SafeUser {
    open spec fn obeys_from_spec() -> bool {
        true
    }

    open spec fn from_spec(v: User) -> SafeUser {
        SafeUser {
            user_id: v.user_id,
            email: v.email,
            username: v.username,
            is_validated: v.is_validated,
            github: v.github,
            website: v.website,
            bio: v.bio,
            first_name: v.first_name,
            last_name: v.last_name,
        }
    }
}

} // verus!
