use vstd::prelude::*;

verus! {

use crate::errors::ApiError;
use crate::models::{BulkDeleteRequest, EmailSummary, SearchQuery};

/// The rule by which a search keeps a message: its score reaches `min_score`.
pub open spec fn min_score_pred(min_score: u8) -> spec_fn(EmailSummary) -> bool {
    |e: EmailSummary| e.importance_score >= min_score
}

/// Search results after the minimum-score filter: a bound above 1 keeps only
/// the messages that reach it, in order; the default bound keeps everything.
pub open spec fn filtered_by_min_score(emails: Seq<EmailSummary>, min_score: u8) -> Seq<
    EmailSummary,
> {
    if min_score > 1 {
        emails.filter(min_score_pred(min_score))
    } else {
        emails
    }
}

/// Whether `c` is a decimal digit.
pub open spec fn is_dec_digit(c: char) -> bool {
    48 <= c as int <= 57
}

/// The digit that `c` denotes.
pub open spec fn digit_val(c: char) -> int {
    c as int - 48
}

/// The number that a sequence of decimal digits denotes.
pub open spec fn dec_digits_value(s: Seq<char>) -> int
    decreases s.len(),
{
    if s.len() == 0 {
        0
    } else {
        dec_digits_value(s.drop_last()) * 10 + digit_val(s.last())
    }
}

/// The digit portion of `u32` text: what follows an optional leading `+`.
pub open spec fn u32_digits_of(s: Seq<char>) -> Seq<char> {
    if s.len() > 0 && s[0] == '+' {
        s.drop_first()
    } else {
        s
    }
}

/// The number that `s` denotes under the grammar of `u32` text: an optional
/// leading `+`, then at least one decimal digit, with a value that fits.
pub open spec fn u32_dec_of(s: Seq<char>) -> Option<u32> {
    if u32_digits_of(s).len() > 0 && (forall|q: int|
        0 <= q < u32_digits_of(s).len() ==> is_dec_digit(#[trigger] u32_digits_of(s)[q]))
        && dec_digits_value(u32_digits_of(s)) <= u32::MAX {
        Some(dec_digits_value(u32_digits_of(s)) as u32)
    } else {
        None
    }
}

proof fn lemma_dec_value_nonneg(s: Seq<char>)
    requires
        forall|q: int| 0 <= q < s.len() ==> is_dec_digit(#[trigger] s[q]),
    ensures
        dec_digits_value(s) >= 0,
    decreases s.len(),
{
    if s.len() > 0 {
        lemma_dec_value_nonneg(s.drop_last());
    }
}

proof fn lemma_dec_value_prefix_bound(s: Seq<char>, k: int)
    requires
        0 <= k <= s.len(),
        forall|q: int| 0 <= q < s.len() ==> is_dec_digit(#[trigger] s[q]),
    ensures
        dec_digits_value(s) >= dec_digits_value(s.take(k)),
    decreases s.len() - k,
{
    if k == s.len() {
        assert(s.take(k) =~= s);
    } else {
        lemma_dec_value_prefix_bound(s, k + 1);
        assert(s.take(k + 1).drop_last() =~= s.take(k));
        lemma_dec_value_nonneg(s.take(k));
    }
}

/// The message count that a `limit` request parameter asks for: the number
/// its text denotes as a `u32`, or 10 when the text does not denote one.
pub fn parse_limit(s: &str) -> (r: u32)
    ensures
        r == match u32_dec_of(s@) {
            Some(v) => v,
            None => 10u32,
        },
{
    let n = s.unicode_len();
    let start: usize = if n > 0 && s.get_char(0) == '+' {
        1
    } else {
        0
    };
    let ghost digits = s@.subrange(start as int, n as int);
    proof {
        if start == 1 {
            assert(digits =~= s@.drop_first());
        } else {
            assert(digits =~= s@);
        }
    }
    if start == n {
        return 10;
    }
    let mut acc: u64 = 0;
    let mut i: usize = start;
    while i < n
        invariant
            n == s@.len(),
            start <= i <= n,
            start <= 1,
            digits == s@.subrange(start as int, n as int),
            digits == u32_digits_of(s@),
            forall|q: int| 0 <= q < i - start ==> is_dec_digit(#[trigger] digits[q]),
            acc == dec_digits_value(digits.take(i - start)),
            acc <= u32::MAX,
        decreases n - i,
    {
        let c = s.get_char(i);
        let cv = c as u32;
        proof {
            assert(digits[i - start] == s@[i as int]);
        }
        if cv < 48 || cv > 57 {
            proof {
                assert(c as int == cv as int);
                assert(!is_dec_digit(digits[i - start]));
            }
            return 10;
        }
        let next: u64 = acc * 10 + ((cv - 48) as u64);
        proof {
            assert(c as int == cv as int);
            assert(digits.take(i - start + 1).drop_last() =~= digits.take(i - start));
            assert(digits.take(i - start + 1).last() == digits[i - start]);
            assert(dec_digits_value(digits.take(i - start + 1)) == acc * 10 + digit_val(
                digits[i - start],
            ));
        }
        if next > 0xFFFF_FFFF {
            proof {
                if (forall|q: int|
                    0 <= q < digits.len() ==> is_dec_digit(#[trigger] digits[q]))
                    && dec_digits_value(digits) <= u32::MAX {
                    lemma_dec_value_prefix_bound(digits, i - start + 1);
                }
            }
            return 10;
        }
        acc = next;
        i = i + 1;
    }
    proof {
        assert(digits.take(n - start) =~= digits);
    }
    acc as u32
}

/// Accepts a search request unless its query text is empty, which is the one
/// client input the search endpoint rejects.
pub fn validate_search_query(query: &SearchQuery) -> (r: Result<(), ApiError>)
    ensures
        r is Ok <==> query.query@.len() > 0,
        r is Err ==> (r->Err_0 matches ApiError::ValidationError(m) && m@
            == "Search query cannot be empty"@),
{
    if query.query.as_str().is_empty() {
        Err(ApiError::ValidationError("Search query cannot be empty".to_owned()))
    } else {
        Ok(())
    }
}

/// Accepts a bulk-delete request unless its id list is empty, which is the
/// one client input the bulk-delete endpoint rejects.
pub fn validate_bulk_delete(request: &BulkDeleteRequest) -> (r: Result<(), ApiError>)
    ensures
        r is Ok <==> request.ids@.len() > 0,
        r is Err ==> (r->Err_0 matches ApiError::ValidationError(m) && m@
            == "No email IDs provided for deletion"@),
{
    if request.ids.len() == 0 {
        Err(ApiError::ValidationError("No email IDs provided for deletion".to_owned()))
    } else {
        Ok(())
    }
}

/// Keeps the search results whose score reaches `min_score`, in their
/// original order; a bound of 1 or below keeps everything.
pub fn filter_by_min_score(emails: Vec<EmailSummary>, min_score: u8) -> (r: Vec<EmailSummary>)
    ensures
        r@ == filtered_by_min_score(emails@, min_score),
{
    if min_score <= 1 {
        return emails;
    }
    let ghost orig = emails@;
    let ghost pred = min_score_pred(min_score);
    let mut rest = emails;
    let mut kept: Vec<EmailSummary> = Vec::new();
    while rest.len() > 0
        invariant
            rest@.len() <= orig.len(),
            orig =~= orig.take(orig.len() - rest@.len()) + rest@,
            kept@ == orig.take(orig.len() - rest@.len()).filter(pred),
            pred == min_score_pred(min_score),
        decreases rest@.len(),
    {
        let ghost k = orig.len() - rest@.len();
        let e = rest.remove(0);
        proof {
            assert(e == orig[k]);
            assert(orig.take(k + 1) =~= orig.take(k as int) + seq![orig[k]]);
            Seq::filter_distributes_over_add(orig.take(k as int), seq![orig[k]], pred);
            reveal_with_fuel(Seq::filter, 2);
            assert(seq![orig[k]].drop_last() =~= Seq::<EmailSummary>::empty());
            assert(orig =~= orig.take(k + 1) + rest@);
        }
        if e.importance_score >= min_score {
            kept.push(e);
        }
    }
    proof {
        assert(orig.take(orig.len() - rest@.len()) =~= orig);
    }
    kept
}

} // verus!
