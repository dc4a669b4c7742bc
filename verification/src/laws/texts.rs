//! Laws of texts, numbers, status codes and paths.

use crate::path::Directory;
use crate::status::HttpStatus;
use vstd::prelude::*;

verus! {

/// The number that a row of decimal digits denotes.
pub open spec fn denoted(digits: Seq<char>) -> int
    decreases digits.len(),
{
    if digits.len() == 0 {
        0
    } else {
        denoted(digits.drop_last()) * 10 + (digits.last() as int - '0' as int)
    }
}

/// A decimal notation denotes its number.
proof fn decimal_denotes(n: nat)
    ensures
        denoted(crate::text::decimal(n)) == n,
        n > 0 ==> crate::text::decimal(n)[0] != '0',
    decreases n,
{
    let digits = crate::text::decimal(n);
    if n < 10 {
        assert(digits.drop_last() =~= Seq::<char>::empty());
        assert(denoted(digits.drop_last()) == 0);
    } else {
        decimal_denotes(n / 10);
        crate::text::decimal_digits(n / 10);
        assert(digits.drop_last() =~= crate::text::decimal(n / 10));
    }
}

/// The decimal notation of a number consists of digits alone, denotes the number,
/// and begins with a zero only if it is one.
pub proof fn decimal_text_denotes_its_number(n: u64, text: String)
    requires
        call_ensures(crate::text::decimal_text, (n,), text),
    ensures
        text@.len() > 0,
        forall|i: int| 0 <= i < text@.len() ==> '0' <= #[trigger] text@[i] <= '9',
        denoted(text@) == n,
        text@[0] == '0' ==> n == 0 && text@.len() == 1,
{
    crate::text::decimal_digits(n as nat);
    decimal_denotes(n as nat);
}

/// A joined list grows by the separator and the item that is added to it; a list
/// of one item is that item, and an empty list is empty.
pub proof fn join_adds_items(
    items: &[&str],
    longer: &[&str],
    item: &str,
    separator: &str,
    text: String,
    longer_text: String,
)
    requires
        call_ensures(crate::text::join, (items, separator), text),
        call_ensures(crate::text::join, (longer, separator), longer_text),
        longer@ == items@.push(item),
    ensures
        items@.len() == 0 ==> text@.len() == 0 && longer_text@ == item@,
        items@.len() > 0 ==> longer_text@ == text@ + separator@ + item@,
{
    let all = crate::text::texts(longer@);
    assert(all.drop_last() =~= crate::text::texts(items@));
    assert(all.last() == item@);
}

/// Two texts are the same exactly if they are as long and have the same character at
/// every place.
pub proof fn same_texts_have_the_same_characters(a: &str, b: &str, same: bool)
    requires
        call_ensures(crate::text::same_text, (a, b), same),
    ensures
        same <==> a@.len() == b@.len() && forall|i: int|
            0 <= i < a@.len() ==> #[trigger] a@[i] == b@[i],
{
    if a@.len() == b@.len() && forall|i: int| 0 <= i < a@.len() ==> #[trigger] a@[i] == b@[i] {
        assert(a@ =~= b@);
    }
}

/// A list holds a text exactly if one of its items has the same characters.
pub proof fn lists_finds_items(items: &[&str], text: &str, found: bool)
    requires
        call_ensures(crate::text::lists, (items, text), found),
    ensures
        found <==> exists|i: int| 0 <= i < items@.len() && #[trigger] items@[i]@ == text@,
{
    let all = crate::text::texts(items@);
    if found {
        let i = choose|i: int| 0 <= i < all.len() && all[i] == text@;
        assert(items@[i]@ == text@);
    }
    if exists|i: int| 0 <= i < items@.len() && #[trigger] items@[i]@ == text@ {
        let i = choose|i: int| 0 <= i < items@.len() && #[trigger] items@[i]@ == text@;
        assert(all[i] == text@);
    }
}

/// A text begins with another exactly if it is that text followed by something,
/// and ends with it exactly if it is something followed by that text.
pub proof fn beginnings_and_endings(
    text: &str,
    part: &str,
    rest: Seq<char>,
    begins: bool,
    finishes: bool,
)
    requires
        call_ensures(crate::text::begins_with, (text, part), begins),
        call_ensures(crate::text::finishes_with, (text, part), finishes),
    ensures
        text@ == part@ + rest ==> begins,
        text@ == rest + part@ ==> finishes,
        begins ==> text@.len() >= part@.len() && text@ == part@ + text@.skip(
            part@.len() as int,
        ),
        finishes ==> text@.len() >= part@.len() && text@ == text@.take(
            text@.len() - part@.len(),
        ) + part@,
{
    if text@ == part@ + rest {
        assert(part@ =~= text@.take(part@.len() as int));
    }
    if text@ == rest + part@ {
        assert(part@ =~= text@.skip(text@.len() - part@.len()));
    }
    if begins {
        assert(text@ =~= part@ + text@.skip(part@.len() as int));
    }
    if finishes {
        assert(text@ =~= text@.take(text@.len() - part@.len()) + part@);
    }
}

/// A status keeps the number that it was made from, and there is one for every
/// number of three digits. It is a success from 200 to 299, and transient for
/// 429, 502, 503 and 504.
pub proof fn status_keeps_its_number(
    code: u16,
    made: Option<HttpStatus>,
    number: u16,
    success: bool,
    transient: bool,
)
    requires
        call_ensures(HttpStatus::from_u16, (code,), made),
        made matches Some(status) ==> {
            &&& call_ensures(HttpStatus::as_u16, (status,), number)
            &&& call_ensures(HttpStatus::is_success, (status,), success)
            &&& call_ensures(crate::status::is_transient, (status,), transient)
        },
    ensures
        made is Some <==> code >= 100 && code <= 999,
        made is Some ==> {
            &&& number == code
            &&& success <==> code >= 200 && code <= 299
            &&& transient <==> code == 429 || code == 502 || code == 503 || code == 504
        },
{
}

/// A status is shown as its number in decimal, a space and more.
pub proof fn status_line_shows_the_number(
    status: HttpStatus,
    number: u16,
    digits: String,
    line: String,
)
    requires
        call_ensures(HttpStatus::as_u16, (status,), number),
        call_ensures(crate::text::decimal_text, (number as u64,), digits),
        call_ensures(HttpStatus::line, (status,), line),
    ensures
        line@ == digits@ + seq![' '] + crate::outside::reason_phrase(number),
{
    reveal_strlit(" ");
    assert(" "@ =~= seq![' ']);
}

/// With `/` as the separator, the path of an entry is the directory, one
/// separator and the name; a directory that is empty or ends with the separator
/// gets no other.
pub proof fn join_puts_one_separator(directory: &str, name: &str, path: String)
    requires
        call_ensures(crate::path::join_path, (directory, "/", name), path),
    ensures
        directory@.len() > 0 && directory@.last() != '/' ==> path@ == directory@ + seq!['/']
            + name@,
        directory@.len() > 0 && directory@.last() == '/' ==> path@ == directory@ + name@,
        directory@.len() == 0 ==> path@ == name@,
{
    reveal_strlit("/");
    reveal_strlit("\\");
    assert("/"@ =~= seq!['/']);
    assert("/"@[0] == '/' && "\\"@[0] == '\\');
    if directory@.len() > 0 {
        assert(directory@.skip(directory@.len() - 1) =~= seq![directory@.last()]);
        assert(seq![directory@.last()][0] == directory@.last());
    } else {
        assert(path@ =~= name@);
    }
}

/// With any separator, the name follows the directory at once if that is empty, ends
/// with `/` or with the separator, or is a drive alone: a letter and a colon, where the
/// separator is a backslash. In all other cases the separator stands between them.
pub proof fn join_uses_the_separator(directory: &str, separator: &str, name: &str, path: String)
    requires
        call_ensures(crate::path::join_path, (directory, separator, name), path),
    ensures
        ({
            let closed = directory@.len() == 0 || directory@.last() == '/'
                || separator@.is_suffix_of(directory@);
            let drive = separator@ == seq!['\\'] && directory@.len() == 2 && directory@[1] == ':'
                && ('a' <= directory@[0] <= 'z' || 'A' <= directory@[0] <= 'Z');
            &&& closed || drive ==> path@ == directory@ + name@
            &&& !closed && !drive ==> path@ == directory@ + separator@ + name@
        }),
        separator@.len() == 1 && directory@.len() > 0 ==> (separator@.is_suffix_of(directory@)
            <==> directory@.last() == separator@[0]),
{
    reveal_strlit("/");
    reveal_strlit("\\");
    assert("/"@ =~= seq!['/']);
    assert("\\"@ =~= seq!['\\']);
    if directory@.len() > 0 {
        let tail = directory@.skip(directory@.len() - 1);
        assert(tail =~= seq![directory@.last()]);
        assert(tail[0] == directory@.last());
        assert(seq!['/'][0] == '/');
        if separator@.len() == 1 {
            assert(separator@ =~= seq![separator@[0]]);
        }
    }
}

/// The entry of a directory is its path joined with the name.
pub proof fn directory_joins_its_path(
    directory: Directory,
    base: &str,
    name: &str,
    path: String,
    joined: String,
)
    requires
        base@ == directory.path@,
        call_ensures(Directory::join, (&directory, name), path),
        call_ensures(crate::path::join_path, (base, directory.separator, name), joined),
    ensures
        path@ == joined@,
{
}

/// A copy of a directory has its path and its separator.
pub proof fn directory_is_copied(directory: Directory, copy: Directory)
    requires
        call_ensures(Directory::clone, (&directory,), copy),
    ensures
        copy.path@ == directory.path@,
        copy.separator@ == directory.separator@,
{
}

} // verus!
