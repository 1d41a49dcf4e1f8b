//! Text the library writes: decimal numbers, credentials, report lines.
use vstd::prelude::*;
use crate::error::PullError;

verus! {

/// The user a request is sent as when the caller names none.
pub const DEFAULT_USER: &'static str = "estunnel";

/// The character of one decimal digit.
pub open spec fn digit(d: int) -> char
    recommends
        0 <= d < 10,
{
    if d == 0 {
        '0'
    } else if d == 1 {
        '1'
    } else if d == 2 {
        '2'
    } else if d == 3 {
        '3'
    } else if d == 4 {
        '4'
    } else if d == 5 {
        '5'
    } else if d == 6 {
        '6'
    } else if d == 7 {
        '7'
    } else if d == 8 {
        '8'
    } else {
        '9'
    }
}

/// A number in decimal, without sign or leading zeros.
pub open spec fn decimal(n: nat) -> Seq<char>
    decreases n,
{
    if n < 10 {
        seq![digit(n as int)]
    } else {
        decimal(n / 10).push(digit((n % 10) as int))
    }
}

fn digit_text(d: u64) -> (r: &'static str)
    requires
        d < 10,
    ensures
        r@ == seq![digit(d as int)],
{
    proof {
        reveal_strlit("0");
        reveal_strlit("1");
        reveal_strlit("2");
        reveal_strlit("3");
        reveal_strlit("4");
        reveal_strlit("5");
        reveal_strlit("6");
        reveal_strlit("7");
        reveal_strlit("8");
        reveal_strlit("9");
    }
    let r = if d == 0 {
        "0"
    } else if d == 1 {
        "1"
    } else if d == 2 {
        "2"
    } else if d == 3 {
        "3"
    } else if d == 4 {
        "4"
    } else if d == 5 {
        "5"
    } else if d == 6 {
        "6"
    } else if d == 7 {
        "7"
    } else if d == 8 {
        "8"
    } else {
        "9"
    };
    assert(r@ =~= seq![digit(d as int)]);
    r
}

/// Writes a number in decimal.
pub fn decimal_text(n: u64) -> (r: String)
    ensures
        r@ == decimal(n as nat),
    decreases n,
{
    if n < 10 {
        String::from_str(digit_text(n))
    } else {
        let head = decimal_text(n / 10);
        let r = head.concat(digit_text(n % 10));
        assert(r@ =~= decimal((n / 10) as nat).push(digit((n % 10) as int)));
        r
    }
}

/// A number in decimal, with zeros in front where it has fewer than `width`
/// digits.
pub open spec fn padded(n: nat, width: nat) -> Seq<char> {
    if decimal(n).len() >= width {
        decimal(n)
    } else {
        Seq::new((width - decimal(n).len()) as nat, |i: int| '0') + decimal(n)
    }
}

/// The label under which a worker's progress is shown: its number, as wide
/// as the number of slices, then the number of slices.
pub open spec fn slice_label(slices: u64, job_id: u64) -> Seq<char> {
    "["@ + padded(job_id as nat, decimal(slices as nat).len()) + "/"@ + decimal(slices as nat)
        + "]"@
}

/// Writes a number in decimal, with zeros in front up to `width` digits.
pub fn padded_text(n: u64, width: usize) -> (r: String)
    ensures
        r@ == padded(n as nat, width as nat),
{
    let digits = decimal_text(n);
    let len = digits.as_str().unicode_len();
    if len >= width {
        return digits;
    }
    let mut zeros = String::new();
    let mut k: usize = 0;
    while k < width - len
        invariant
            len < width,
            k <= width - len,
            zeros@ == Seq::new(k as nat, |i: int| '0'),
        decreases width - len - k,
    {
        proof {
            reveal_strlit("0");
        }
        zeros.append("0");
        k += 1;
        assert(zeros@ =~= Seq::new(k as nat, |i: int| '0'));
    }
    zeros.concat(digits.as_str())
}

/// Writes the label of worker `job_id` of `slices`.
pub fn slice_label_text(slices: u64, job_id: u64) -> (r: String)
    ensures
        r@ == slice_label(slices, job_id),
{
    let total = decimal_text(slices);
    let width = total.as_str().unicode_len();
    String::from_str("[").concat(padded_text(job_id, width).as_str()).concat("/").concat(
        total.as_str(),
    ).concat("]")
}

/// The position of the first colon of a text, or its length where it has none.
pub open spec fn colon_at(s: Seq<char>) -> int
    decreases s.len(),
{
    if s.len() == 0 || s[0] == ':' {
        0
    } else {
        1 + colon_at(s.drop_first())
    }
}

/// The user of a login: what stands before the first colon, the whole text
/// where there is none, the default user without a login.
pub open spec fn user_of(auth: Option<Seq<char>>) -> Seq<char> {
    match auth {
        Some(a) => a.take(colon_at(a)),
        None => DEFAULT_USER@,
    }
}

/// The password of a login: what follows the first colon, if there is one.
pub open spec fn pass_of(auth: Option<Seq<char>>) -> Option<Seq<char>> {
    match auth {
        Some(a) => if colon_at(a) < a.len() {
            Some(a.skip(colon_at(a) + 1))
        } else {
            None
        },
        None => None,
    }
}

/// The first colon of a text lies within it, is a colon, and has none
/// before it.
pub proof fn lemma_colon_at(s: Seq<char>)
    ensures
        0 <= colon_at(s) <= s.len(),
        colon_at(s) < s.len() ==> s[colon_at(s)] == ':',
        forall|k: int| 0 <= k < colon_at(s) ==> s[k] != ':',
    decreases s.len(),
{
    if s.len() == 0 || s[0] == ':' {
    } else {
        let rest = s.drop_first();
        lemma_colon_at(rest);
        assert forall|k: int| 0 <= k < colon_at(s) implies s[k] != ':' by {
            if k > 0 {
                assert(s[k] == rest[k - 1]);
            }
        }
    }
}

/// A position is the first colon where a colon stands there and none before.
pub proof fn lemma_first_colon(s: Seq<char>, i: int)
    requires
        0 <= i <= s.len(),
        i < s.len() ==> s[i] == ':',
        forall|k: int| 0 <= k < i ==> s[k] != ':',
    ensures
        colon_at(s) == i,
{
    lemma_colon_at(s);
    let c = colon_at(s);
    if c < i {
        assert(s[c] == ':');
    } else if i < c {
        assert(s[i] == ':');
    }
}

/// Splits a login at its first colon into user and password. A login
/// without a colon is a user whose password is still to be asked for; no
/// login at all is the default user without a password.
pub fn userpass(auth: Option<String>) -> (r: (String, Option<String>))
    ensures
        r.0@ == user_of(
            match auth {
                Some(a) => Some(a@),
                None => None,
            },
        ),
        match r.1 {
            Some(p) => pass_of(
                match auth {
                    Some(a) => Some(a@),
                    None => None,
                },
            ) == Some(p@),
            None => pass_of(
                match auth {
                    Some(a) => Some(a@),
                    None => None,
                },
            ) is None,
        },
{
    match auth {
        Some(a) => {
            let text = a.as_str();
            let n = text.unicode_len();
            let mut i: usize = 0;
            while i < n && text.get_char(i) != ':'
                invariant
                    n == text@.len(),
                    i <= n,
                    forall|k: int| 0 <= k < i ==> text@[k] != ':',
                decreases n - i,
            {
                i += 1;
            }
            proof {
                lemma_first_colon(text@, i as int);
            }
            if i < n {
                let user = String::from_str(text.substring_char(0, i));
                let pass = String::from_str(text.substring_char(i + 1, n));
                (user, Some(pass))
            } else {
                assert(text@.take(n as int) =~= text@);
                (a, None)
            }
        },
        None => (String::from_str(DEFAULT_USER), None),
    }
}

/// The question put to a user whose password is not known.
pub fn password_prompt(user: &str) -> (r: String)
    ensures
        r@ == "Enter host password for user "@ + user@ + ": "@,
{
    String::from_str("Enter host password for user ").concat(user).concat(": ")
}

/// What an error says of itself: a fetch error its status, where it has one,
/// and the body as it came; the others their message.
pub open spec fn detail_of(e: PullError) -> Seq<char> {
    match e {
        PullError::Fetch { status: Some(s), body } => "HTTP status "@ + decimal(s as nat) + ": "@
            + body@,
        PullError::Fetch { status: None, body } => body@,
        PullError::Parse(m) => m@,
        PullError::Write(m) => m@,
        PullError::Config(m) => m@,
    }
}

/// Writes what an error says of itself.
pub fn error_detail(e: &PullError) -> (r: String)
    ensures
        r@ == detail_of(*e),
{
    match e {
        PullError::Fetch { status: Some(s), body } => String::from_str("HTTP status ").concat(
            decimal_text(*s as u64).as_str(),
        ).concat(": ").concat(body.as_str()),
        PullError::Fetch { status: None, body } => body.clone(),
        PullError::Parse(m) => m.clone(),
        PullError::Write(m) => m.clone(),
        PullError::Config(m) => m.clone(),
    }
}

} // verus!
