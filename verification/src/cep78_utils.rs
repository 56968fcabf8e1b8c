use vstd::prelude::*;

use crate::data::Key;

verus! {

/// One unit-issuance call to hand to the external issuer: register the
/// owner with the named contract package (idempotent), then mint one unit
/// carrying the sequence-derived descriptor.
#[derive(Clone, Debug, PartialEq, Eq)]
pub struct IssueRequest {
    /// The issuer's contract package.
    pub cep78_package_hash: u64,
    /// The owner of the new unit.
    pub token_owner: Key,
    /// The unit's sequence number.
    pub sequence: u64,
    /// The descriptor of the unit, derived from the sequence number.
    pub token_meta_data: String,
}

/// The character of one decimal digit.
pub open spec fn digit_char(d: nat) -> char {
    if d == 0 {
        '0'
    } else if d == 1 {
        '1'
    } else if d == 2 {
        '2'
    } else if d == 3 {
        '3'
    } else if d == 4 {
        '4'
    } else if d == 5 {
        '5'
    } else if d == 6 {
        '6'
    } else if d == 7 {
        '7'
    } else if d == 8 {
        '8'
    } else {
        '9'
    }
}

/// The decimal numeral of `n`, most significant digit first, without
/// leading zeros (`0` itself is the one-character numeral).
pub open spec fn dec_str(n: nat) -> Seq<char>
    decreases n,
{
    if n < 10 {
        seq![digit_char(n)]
    } else {
        dec_str(n / 10) + seq![digit_char(n % 10)]
    }
}

/// The descriptor handed to the issuer for sequence number `sequence`.
pub open spec fn metadata_view(sequence: u64) -> Seq<char> {
    "{ \"name\": \"BoredApeYachtClub\", \"symbol\": \"BAYC\", \"token_uri\": \"ipfs://QmeSjSinHpPnmXmspMjwiXyN6zS4E9zccariGR3jxcaWtq/"@
        + dec_str(sequence as nat) + "\" }"@
}

/// The one-character numeral of a single digit.
fn digit_str(d: u64) -> (r: &'static str)
    requires
        d < 10,
    ensures
        r@ == seq![digit_char(d as nat)],
{
    if d == 0 {
        proof {
            reveal_strlit("0");
            assert("0"@ =~= seq![digit_char(0)]);
        }
        "0"
    } else if d == 1 {
        proof {
            reveal_strlit("1");
            assert("1"@ =~= seq![digit_char(1)]);
        }
        "1"
    } else if d == 2 {
        proof {
            reveal_strlit("2");
            assert("2"@ =~= seq![digit_char(2)]);
        }
        "2"
    } else if d == 3 {
        proof {
            reveal_strlit("3");
            assert("3"@ =~= seq![digit_char(3)]);
        }
        "3"
    } else if d == 4 {
        proof {
            reveal_strlit("4");
            assert("4"@ =~= seq![digit_char(4)]);
        }
        "4"
    } else if d == 5 {
        proof {
            reveal_strlit("5");
            assert("5"@ =~= seq![digit_char(5)]);
        }
        "5"
    } else if d == 6 {
        proof {
            reveal_strlit("6");
            assert("6"@ =~= seq![digit_char(6)]);
        }
        "6"
    } else if d == 7 {
        proof {
            reveal_strlit("7");
            assert("7"@ =~= seq![digit_char(7)]);
        }
        "7"
    } else if d == 8 {
        proof {
            reveal_strlit("8");
            assert("8"@ =~= seq![digit_char(8)]);
        }
        "8"
    } else {
        proof {
            reveal_strlit("9");
            assert("9"@ =~= seq![digit_char(9)]);
        }
        "9"
    }
}

/// The decimal numeral of `n` as an owned string.
pub fn decimal_string(n: u64) -> (s: String)
    ensures
        s@ == dec_str(n as nat),
    decreases n,
{
    if n < 10 {
        String::from_str(digit_str(n))
    } else {
        let mut s = decimal_string(n / 10);
        proof {
            assert((n / 10) as nat == (n as nat) / 10);
        }
        s.append(digit_str(n % 10));
        s
    }
}

/// Builds the descriptor of one unit from its sequence number: a fixed
/// name and symbol, and a URI that ends in the sequence number.
pub fn generate_metadata(count: u64) -> (r: String)
    ensures
        r@ == metadata_view(count),
{
    let mut s = String::from_str(
        "{ \"name\": \"BoredApeYachtClub\", \"symbol\": \"BAYC\", \"token_uri\": \"ipfs://QmeSjSinHpPnmXmspMjwiXyN6zS4E9zccariGR3jxcaWtq/",
    );
    let num = decimal_string(count);
    s.append(num.as_str());
    s.append("\" }");
    s
}

} // verus!
