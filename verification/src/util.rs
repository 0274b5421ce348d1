use crate::dates::Date;
use crate::text::{dec_str, digit_val_spec, digits_val, is_digit_char, lemma_dec_str_digits, lemma_pad2_digits, pad2, two_digit_string, u128_to_string};
use vstd::prelude::*;
use vstd::string::*;

verus! {

/// The `YYYY-MM-DD` rendering of a date: the year without padding, month and
/// day always two digits.
pub open spec fn date_chars(d: Date) -> Seq<char> {
    dec_str(d.year as nat) + "-"@ + pad2(d.month as nat) + "-"@ + pad2(d.day as nat)
}

/// The image url derived for a trophy record.
pub open spec fn trophy_url_chars(
    base: Seq<char>,
    collection_id: Seq<char>,
    donated: nat,
    created: Seq<char>,
) -> Seq<char> {
    base + "/nft/collection/"@ + collection_id + "?donated="@ + dec_str(donated) + "&created="@
        + created
}

/// The image url derived for a membership record.
pub open spec fn membership_url_chars(
    base: Seq<char>,
    user_slug: Seq<char>,
    donated: nat,
    created: Seq<char>,
) -> Seq<char> {
    base + "/nft/membership/"@ + user_slug + "?donated="@ + dec_str(donated) + "&created="@
        + created
}

/// The image url derived for a creator-profile record.
pub open spec fn creator_url_chars(base: Seq<char>, donated: nat, created: Seq<char>) -> Seq<char> {
    base + "/nft/creator?donated="@ + dec_str(donated) + "&created="@ + created
}

/// The public profile url embedded in records as `info_url`.
pub open spec fn profile_url_chars(base: Seq<char>, user_slug: Seq<char>) -> Seq<char> {
    base + "/p/"@ + user_slug
}

/// Renders a date as `YYYY-MM-DD`.
pub fn generate_created_string(time: Date) -> (s: String)
    requires
        time.valid(),
    ensures
        s@ == date_chars(time),
{
    let mut s = u128_to_string(time.year as u128);
    s.append("-");
    let month = two_digit_string(time.month);
    s.append(month.as_str());
    s.append("-");
    let day = two_digit_string(time.day);
    s.append(day.as_str());
    assert(s@ =~= date_chars(time));
    s
}

/// Builds the image url for a trophy record.
pub fn generate_trophy_url(
    base_path: String,
    donated: u128,
    created: String,
    collection_id: String,
) -> (r: String)
    ensures
        r@ == trophy_url_chars(base_path@, collection_id@, donated as nat, created@),
{
    let mut s = base_path;
    s.append("/nft/collection/");
    s.append(collection_id.as_str());
    s.append("?donated=");
    let amount = u128_to_string(donated);
    s.append(amount.as_str());
    s.append("&created=");
    s.append(created.as_str());
    assert(s@ =~= trophy_url_chars(base_path@, collection_id@, donated as nat, created@));
    s
}

/// Builds the image url for a membership record.
pub fn generate_membership_url(
    base_path: String,
    donated: u128,
    created: String,
    user_slug: String,
) -> (r: String)
    ensures
        r@ == membership_url_chars(base_path@, user_slug@, donated as nat, created@),
{
    let mut s = base_path;
    s.append("/nft/membership/");
    s.append(user_slug.as_str());
    s.append("?donated=");
    let amount = u128_to_string(donated);
    s.append(amount.as_str());
    s.append("&created=");
    s.append(created.as_str());
    s
}

/// Builds the image url for a creator-profile record.
pub fn generate_creator_url(base_path: String, donated: u128, created: String) -> (r: String)
    ensures
        r@ == creator_url_chars(base_path@, donated as nat, created@),
{
    let mut s = base_path;
    s.append("/nft/creator?donated=");
    let amount = u128_to_string(donated);
    s.append(amount.as_str());
    s.append("&created=");
    s.append(created.as_str());
    s
}

/// Builds the public profile url embedded in records as `info_url`.
pub fn generate_profile_url(base_path: String, user_slug: String) -> (r: String)
    ensures
        r@ == profile_url_chars(base_path@, user_slug@),
{
    let mut s = base_path;
    s.append("/p/");
    s.append(user_slug.as_str());
    s
}

/// The decimal value of one digit character, if it is one.
fn digit_val(c: char) -> (r: Option<u8>)
    ensures
        is_digit_char(c) ==> r == Some(digit_val_spec(c) as u8),
        !is_digit_char(c) ==> r is None,
{
    match c {
        '0' => Some(0),
        '1' => Some(1),
        '2' => Some(2),
        '3' => Some(3),
        '4' => Some(4),
        '5' => Some(5),
        '6' => Some(6),
        '7' => Some(7),
        '8' => Some(8),
        '9' => Some(9),
        _ => None,
    }
}

/// The index of the first `-` at or after `from`, if any.
fn find_dash(s: &str, from: usize) -> (r: Option<usize>)
    requires
        from <= s@.len(),
    ensures
        r is Some ==> from <= r->0 < s@.len() && s@[r->0 as int] == '-' && (forall|k: int|
            from <= k < r->0 ==> s@[k] != '-'),
        r is None ==> forall|k: int| from <= k < s@.len() ==> s@[k] != '-',
{
    let n = s.unicode_len();
    let mut i = from;
    while i < n
        invariant
            from <= i <= n,
            n == s@.len(),
            forall|k: int| from <= k < i ==> s@[k] != '-',
        decreases n - i,
    {
        if s.get_char(i) == '-' {
            return Some(i);
        }
        i = i + 1;
    }
    None
}

/// Appending characters to a digit run never shrinks its value.
proof fn lemma_digits_val_prefix(s: Seq<char>, from: int, mid: int, to: int)
    requires
        0 <= from <= mid <= to <= s.len(),
    ensures
        0 <= digits_val(s.subrange(from, mid)) <= digits_val(s.subrange(from, to)),
    decreases to - mid,
{
    lemma_digits_val_nonneg(s.subrange(from, mid));
    if mid < to {
        lemma_digits_val_prefix(s, from, mid + 1, to);
        assert(s.subrange(from, mid + 1).drop_last() =~= s.subrange(from, mid));
    }
}

proof fn lemma_digits_val_nonneg(s: Seq<char>)
    ensures
        digits_val(s) >= 0,
    decreases s.len(),
{
    if s.len() > 0 {
        lemma_digits_val_nonneg(s.drop_last());
    }
}

/// The value of the digit run `s[from..to]`, if the run is non-empty, every
/// character is a digit, and the value fits the cap; `None` otherwise.
fn parse_decimal(s: &str, from: usize, to: usize, cap: u32) -> (r: Option<u32>)
    requires
        from <= to <= s@.len(),
    ensures
        r is Some ==> r->0 <= cap,
        from < to && (forall|k: int| from <= k < to ==> is_digit_char(s@[k])) && digits_val(
            s@.subrange(from as int, to as int),
        ) <= cap ==> r == Some(digits_val(s@.subrange(from as int, to as int)) as u32),
{
    if from == to {
        return None;
    }
    let mut value: u64 = 0;
    let mut i = from;
    proof {
        assert(s@.subrange(from as int, from as int) =~= Seq::<char>::empty());
    }
    while i < to
        invariant
            from <= i <= to <= s@.len(),
            value <= cap,
            cap <= u32::MAX,
            value as int == digits_val(s@.subrange(from as int, i as int)),
            forall|k: int| from <= k < i ==> is_digit_char(s@[k]),
        decreases to - i,
    {
        let c = s.get_char(i);
        let d: u8 = match digit_val(c) {
            Some(d) => d,
            None => {
                return None;
            },
        };
        proof {
            assert(s@.subrange(from as int, i as int + 1).drop_last() =~= s@.subrange(
                from as int,
                i as int,
            ));
            assert(s@.subrange(from as int, i as int + 1).last() == s@[i as int]);
        }
        let next: u64 = value * 10 + (d as u64);
        if next > cap as u64 {
            proof {
                lemma_digits_val_prefix(s@, from as int, i as int + 1, to as int);
            }
            return None;
        }
        value = next;
        i = i + 1;
    }
    Some(value as u32)
}

/// The exact shape of a rendered date: year digits, a dash, two month
/// digits, a dash, two day digits, each run reading back as its field.
proof fn lemma_date_chars_structure(d: Date)
    requires
        d.valid(),
    ensures
        date_chars(d).len() == dec_str(d.year as nat).len() as int + 6,
        dec_str(d.year as nat).len() >= 1,
        forall|k: int|
            0 <= k < dec_str(d.year as nat).len() ==> is_digit_char(#[trigger] date_chars(d)[k]),
        date_chars(d)[dec_str(d.year as nat).len() as int] == '-',
        is_digit_char(date_chars(d)[dec_str(d.year as nat).len() as int + 1]),
        is_digit_char(date_chars(d)[dec_str(d.year as nat).len() as int + 2]),
        date_chars(d)[dec_str(d.year as nat).len() as int + 3] == '-',
        is_digit_char(date_chars(d)[dec_str(d.year as nat).len() as int + 4]),
        is_digit_char(date_chars(d)[dec_str(d.year as nat).len() as int + 5]),
        digits_val(date_chars(d).subrange(0, dec_str(d.year as nat).len() as int)) == d.year,
        digits_val(
            date_chars(d).subrange(
                dec_str(d.year as nat).len() as int + 1,
                dec_str(d.year as nat).len() as int + 3,
            ),
        ) == d.month,
        digits_val(
            date_chars(d).subrange(
                dec_str(d.year as nat).len() as int + 4,
                dec_str(d.year as nat).len() as int + 6,
            ),
        ) == d.day,
{
    reveal_strlit("-");
    lemma_dec_str_digits(d.year as nat);
    lemma_pad2_digits(d.month as nat);
    lemma_pad2_digits(d.day as nat);
    let y = dec_str(d.year as nat);
    let yl = y.len() as int;
    let m = pad2(d.month as nat);
    let dd = pad2(d.day as nat);
    let whole = date_chars(d);
    assert("-"@.len() == 1);
    assert("-"@[0] == '-');
    assert(whole.len() == yl + 6);
    assert(whole.subrange(0, yl) =~= y);
    assert(whole.subrange(yl + 1, yl + 3) =~= m);
    assert(whole.subrange(yl + 4, yl + 6) =~= dd);
    assert forall|k: int| 0 <= k < yl implies is_digit_char(#[trigger] whole[k]) by {
        assert(whole[k] == y[k]);
    }
    assert(whole[yl] == '-');
    assert(whole[yl + 1] == m[0]);
    assert(whole[yl + 2] == m[1]);
    assert(whole[yl + 3] == '-');
    assert(whole[yl + 4] == dd[0]);
    assert(whole[yl + 5] == dd[1]);
}

/// Reads a `YYYY-MM-DD` string back into a date.  Returns `Some` exactly for
/// the canonical rendering of a real calendar day, and then returns that
/// day.
#[verifier::rlimit(100)]
pub fn parse_created_string(input: String) -> (r: Option<Date>)
    ensures
        r is Some ==> r->0.valid() && date_chars(r->0) == input@,
        forall|d: Date| d.valid() && date_chars(d) == input@ ==> r == Some(d),
{
    let s: &str = input.as_str();
    let n = s.unicode_len();
    let d1 = match find_dash(s, 0) {
        Some(i) => i,
        None => {
            proof {
                assert forall|d: Date| d.valid() && date_chars(d) == input@ implies false by {
                    lemma_date_chars_structure(d);
                }
            }
            return None;
        },
    };
    proof {
        assert forall|d: Date|
            d.valid() && date_chars(d) == input@ implies d1 == dec_str(d.year as nat).len() by {
            lemma_date_chars_structure(d);
            let yl = dec_str(d.year as nat).len() as int;
            if d1 < yl {
                assert(is_digit_char(input@[d1 as int]));
            }
            if d1 > yl {
                assert(input@[yl] != '-');
            }
        }
    }
    let d2 = match find_dash(s, d1 + 1) {
        Some(i) => i,
        None => {
            proof {
                assert forall|d: Date| d.valid() && date_chars(d) == input@ implies false by {
                    lemma_date_chars_structure(d);
                    let yl = dec_str(d.year as nat).len() as int;
                    assert(input@[yl + 3] == '-');
                }
            }
            return None;
        },
    };
    proof {
        assert forall|d: Date|
            d.valid() && date_chars(d) == input@ implies d2 == dec_str(d.year as nat).len()
            + 3 by {
            lemma_date_chars_structure(d);
            let yl = dec_str(d.year as nat).len() as int;
            if d2 < yl + 3 {
                assert(is_digit_char(input@[d2 as int]));
            }
            if d2 > yl + 3 {
                assert(input@[yl + 3] != '-');
            }
        }
    }
    let year = match parse_decimal(s, 0, d1, u32::MAX) {
        Some(y) => y,
        None => {
            proof {
                assert forall|d: Date| d.valid() && date_chars(d) == input@ implies false by {
                    lemma_date_chars_structure(d);
                }
            }
            return None;
        },
    };
    let month = match parse_decimal(s, d1 + 1, d2, 12) {
        Some(m) => m,
        None => {
            proof {
                assert forall|d: Date| d.valid() && date_chars(d) == input@ implies false by {
                    lemma_date_chars_structure(d);
                    let yl = dec_str(d.year as nat).len() as int;
                    assert(is_digit_char(input@[yl + 1]));
                    assert(is_digit_char(input@[yl + 2]));
                }
            }
            return None;
        },
    };
    let day = match parse_decimal(s, d2 + 1, n, 31) {
        Some(x) => x,
        None => {
            proof {
                assert forall|d: Date| d.valid() && date_chars(d) == input@ implies false by {
                    lemma_date_chars_structure(d);
                    let yl = dec_str(d.year as nat).len() as int;
                    assert(is_digit_char(input@[yl + 4]));
                    assert(is_digit_char(input@[yl + 5]));
                }
            }
            return None;
        },
    };
    proof {
        assert forall|d: Date|
            d.valid() && date_chars(d) == input@ implies d == (Date {
            year,
            month: month as u8,
            day: day as u8,
        }) by {
            lemma_date_chars_structure(d);
        }
    }
    let candidate = Date { year, month: month as u8, day: day as u8 };
    if !candidate.is_valid() {
        proof {
            assert forall|d: Date| d.valid() && date_chars(d) == input@ implies false by {
                lemma_date_chars_structure(d);
            }
        }
        return None;
    }
    let rendered = generate_created_string(candidate);
    if rendered == input {
        Some(candidate)
    } else {
        None
    }
}

} // verus!
