//! The in-memory representation of the resource and of the typed requests
//! and responses around it, with the input checks the boundary relies on:
//! numeric id parsing and title validation.

use vstd::prelude::*;
use crate::error::TodoError;
use crate::timestamp::{Timestamp, is_digit, digit_val};

verus! {

/// The sole entity: one stored row as a plain value, with no reference back
/// to the store.
#[derive(Clone, Debug)]
pub struct Todo {
    /// Store-assigned identifier, unique and immutable once assigned.
    pub id: i64,
    /// Required at creation; no uniqueness constraint.
    pub title: String,
    /// Optional at creation; an absent body is stored as the empty string
    /// by the reader when the column is null.
    pub body: String,
    /// Present when the row carries a well-formed stored timestamp.
    pub created_at: Option<Timestamp>,
}

/// The path parameter of a fetch request, as it arrives from the transport:
/// an untyped string, checked by `parse_id` before it reaches the store.
#[derive(Clone, Debug)]
pub struct GetTodoReqPath {
    /// The raw id text from the request path.
    pub id: String,
}

/// The typed result of a fetch request.
#[derive(Clone, Debug)]
pub struct GetTodoRes {
    /// The matching row.
    pub todo: Todo,
}

/// The typed body of an insert request.
#[derive(Clone, Debug)]
pub struct PostTodoReq {
    /// Required; rejected when empty or whitespace-only.
    pub title: String,
    /// Optional; stored as null when absent.
    pub body: Option<String>,
}

/// A whitespace character: the Unicode White_Space set.
pub open spec fn is_space(c: char) -> bool {
    ||| c == ' '
    ||| c == '\t'
    ||| c == '\n'
    ||| c == '\r'
    ||| c as int == 0x0B
    ||| c as int == 0x0C
    ||| c as int == 0x85
    ||| c as int == 0xA0
    ||| c as int == 0x1680
    ||| 0x2000 <= c as int <= 0x200A
    ||| c as int == 0x2028
    ||| c as int == 0x2029
    ||| c as int == 0x202F
    ||| c as int == 0x205F
    ||| c as int == 0x3000
}

/// Decides membership in the Unicode White_Space set.
fn is_space_char(c: char) -> (r: bool)
    ensures
        r == is_space(c),
{
    let u: u32 = c as u32;
    u == 0x20 || u == 0x09 || u == 0x0A || u == 0x0D || u == 0x0B || u == 0x0C || u == 0x85
        || u == 0xA0 || u == 0x1680 || (0x2000 <= u && u <= 0x200A) || u == 0x2028 || u == 0x2029
        || u == 0x202F || u == 0x205F || u == 0x3000
}

/// A title is blank when every character is whitespace; the empty title is
/// blank.
pub open spec fn is_blank(s: Seq<char>) -> bool {
    forall|i: int| 0 <= i < s.len() ==> is_space(#[trigger] s[i])
}

/// Decides whether a title is blank (empty or whitespace-only).
pub fn title_is_blank(s: &str) -> (r: bool)
    ensures
        r == is_blank(s@),
{
    let n = s.unicode_len();
    let mut i: usize = 0;
    while i < n
        invariant
            n == s@.len(),
            i <= n,
            forall|j: int| 0 <= j < i ==> is_space(#[trigger] s@[j]),
        decreases n - i,
    {
        let c = s.get_char(i);
        if !is_space_char(c) {
            assert(!is_space(s@[i as int]));
            return false;
        }
        i = i + 1;
    }
    true
}

/// Every character of `s` is a decimal digit.
pub open spec fn is_digit_seq(s: Seq<char>) -> bool {
    forall|i: int| 0 <= i < s.len() ==> is_digit(#[trigger] s[i])
}

/// The decimal value of a digit string.
pub open spec fn dec_val(s: Seq<char>) -> int
    decreases s.len(),
{
    if s.len() == 0 {
        0
    } else {
        dec_val(s.drop_last()) * 10 + digit_val(s.last())
    }
}

/// The value of a digit string is never negative.
proof fn lemma_dec_val_nonneg(s: Seq<char>)
    requires
        is_digit_seq(s),
    ensures
        dec_val(s) >= 0,
    decreases s.len(),
{
    if s.len() > 0 {
        assert(is_digit_seq(s.drop_last()));
        lemma_dec_val_nonneg(s.drop_last());
    }
}

/// Extending a digit string never lowers its value.
proof fn lemma_dec_val_prefix(s: Seq<char>, i: int)
    requires
        is_digit_seq(s),
        0 <= i <= s.len(),
    ensures
        dec_val(s.take(i)) <= dec_val(s),
    decreases s.len() - i,
{
    if i < s.len() {
        assert(is_digit_seq(s.take(i)));
        assert(s.take(i + 1).drop_last() =~= s.take(i));
        assert(s.take(i + 1).last() == s[i]);
        lemma_dec_val_nonneg(s.take(i));
        lemma_dec_val_prefix(s, i + 1);
    } else {
        assert(s.take(i) =~= s);
    }
}

/// Whether an id text is acceptable: nonempty, all digits, and a value
/// that fits the id type.
pub open spec fn id_text_ok(s: Seq<char>) -> bool {
    s.len() > 0 && is_digit_seq(s) && dec_val(s) <= i64::MAX
}

/// Parses a decimal id from a request path parameter.
///
/// Accepts exactly the nonempty all-digit strings whose value fits an
/// `i64`, and yields that value; everything else is a validation error,
/// rejected before it can reach the store.
pub fn parse_id(s: &str) -> (r: Result<i64, TodoError>)
    ensures
        r matches Ok(v) ==> id_text_ok(s@) && v == dec_val(s@),
        r is Err <==> !id_text_ok(s@),
        r is Err ==> r == Err::<i64, TodoError>(TodoError::Validation),
{
    let n = s.unicode_len();
    if n == 0 {
        return Err(TodoError::Validation);
    }
    let mut acc: i64 = 0;
    let mut i: usize = 0;
    while i < n
        invariant
            n == s@.len(),
            0 < n <= usize::MAX,
            i <= n,
            is_digit_seq(s@.take(i as int)),
            0 <= acc,
            acc == dec_val(s@.take(i as int)),
        decreases n - i,
    {
        let c: u32 = s.get_char(i) as u32;
        if !(48 <= c && c <= 57) {
            assert(!is_digit(s@[i as int]));
            return Err(TodoError::Validation);
        }
        let d: i64 = (c - 48) as i64;
        proof {
            assert(s@.take(i as int + 1).drop_last() =~= s@.take(i as int));
            assert(s@.take(i as int + 1).last() == s@[i as int]);
        }
        if acc > (i64::MAX - d) / 10 {
            proof {
                vstd::arithmetic::div_mod::lemma_fundamental_div_mod(i64::MAX - d, 10);
                assert(acc * 10 + d > i64::MAX) by (nonlinear_arith)
                    requires
                        acc > (i64::MAX - d) / 10,
                        (i64::MAX - d) == 10 * ((i64::MAX - d) / 10) + (i64::MAX - d) % 10,
                        0 <= (i64::MAX - d) % 10 < 10,
                ;
                assert(is_digit_seq(s@.take(i as int + 1)));
                assert(dec_val(s@.take(i as int + 1)) == acc * 10 + d);
                if is_digit_seq(s@) {
                    lemma_dec_val_prefix(s@, i as int + 1);
                }
            }
            return Err(TodoError::Validation);
        }
        proof {
            vstd::arithmetic::div_mod::lemma_fundamental_div_mod(i64::MAX - d, 10);
            assert(acc * 10 + d <= i64::MAX) by (nonlinear_arith)
                requires
                    0 <= acc <= (i64::MAX - d) / 10,
                    (i64::MAX - d) == 10 * ((i64::MAX - d) / 10) + (i64::MAX - d) % 10,
                    0 <= (i64::MAX - d) % 10,
                    0 <= d,
            ;
        }
        acc = acc * 10 + d;
        i = i + 1;
    }
    proof {
        assert(s@.take(n as int) =~= s@);
    }
    Ok(acc)
}

} // verus!
