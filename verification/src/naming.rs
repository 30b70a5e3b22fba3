//! Names: the extension of an uploaded file, and the names given to what is
//! produced from it.

use vstd::prelude::*;
use vstd::string::*;
use crate::formats::{lemma_names_differ, target_format_of, TargetFormat};
use crate::params::resolved_format;
use crate::text::{chars_of, joined, lowercase, lowercase_text};

verus! {

/// The last position at which `c` stands in `s`, or -1 where it stands nowhere.
pub open spec fn last_index_of(s: Seq<char>, c: char) -> int
    decreases s.len(),
{
    if s.len() == 0 {
        -1
    } else if s.last() == c {
        s.len() - 1
    } else {
        last_index_of(s.drop_last(), c)
    }
}

/// What `last_index_of` finds is a position of `c` with no `c` behind it, and
/// it finds one wherever there is one.
pub proof fn lemma_last_index_of(s: Seq<char>, c: char)
    ensures
        -1 <= last_index_of(s, c) < s.len(),
        last_index_of(s, c) >= 0 ==> s[last_index_of(s, c)] == c,
        forall|j: int| last_index_of(s, c) < j < s.len() ==> s[j] != c,
    decreases s.len(),
{
    if s.len() > 0 && s.last() != c {
        let shorter = s.drop_last();
        lemma_last_index_of(shorter, c);
        assert forall|j: int| last_index_of(s, c) < j < s.len() implies s[j] != c by {
            if j < shorter.len() {
                assert(shorter[j] == s[j]);
            }
        }
    }
}

/// Whether a part of a path between two `/` names nothing: the empty part,
/// which a `/` at the end or a doubled `/` leaves, and the part `.`.
pub open spec fn names_nothing(part: Seq<char>) -> bool {
    part.len() == 0 || (part.len() == 1 && part[0] == '.')
}

/// The final component of a name that is read as a path: the last part,
/// between `/`, that names something. A name without such a part has the
/// empty one.
pub open spec fn final_component(name: Seq<char>) -> Seq<char>
    decreases name.len(),
{
    let slash = last_index_of(name, '/');
    let last = name.skip(slash + 1);
    if !names_nothing(last) {
        last
    } else if slash < 0 {
        Seq::<char>::empty()
    } else {
        proof {
            lemma_last_index_of(name, '/');
        }
        final_component(name.take(slash))
    }
}

/// The extension as the name writes it: what follows the last `.` of the
/// final component. A component without a `.`, or whose only `.` opens it,
/// has none, which is written as the empty text.
pub open spec fn written_extension_of(name: Seq<char>) -> Seq<char> {
    let component = final_component(name);
    let dot = last_index_of(component, '.');
    if dot <= 0 {
        Seq::<char>::empty()
    } else {
        component.skip(dot + 1)
    }
}

/// The extension of a file name, in lower case.
pub open spec fn extension_of(name: Seq<char>) -> Seq<char> {
    lowercase_text(written_extension_of(name))
}

/// The last position from `from` up to `to` at which `c` stands.
fn last_position(chars: &Vec<char>, from: usize, to: usize, c: char) -> (r: Option<usize>)
    requires
        from <= to <= chars.len(),
    ensures
        match r {
            Some(i) => from <= i < to && last_index_of(chars@.subrange(from as int, to as int), c)
                == i - from,
            None => last_index_of(chars@.subrange(from as int, to as int), c) == -1,
        },
{
    let ghost part: Seq<char> = chars@.subrange(from as int, to as int);
    let mut end: usize = to;
    assert(part.take(end - from) =~= part);
    while end > from
        invariant
            from <= end <= to <= chars.len(),
            part == chars@.subrange(from as int, to as int),
            last_index_of(part, c) == last_index_of(part.take(end - from), c),
        decreases end - from,
    {
        let ghost head = part.take(end - from);
        assert(head.last() == chars@[end - 1]);
        if chars[end - 1] == c {
            return Some(end - 1);
        }
        assert(head.drop_last() =~= part.take(end - 1 - from));
        end = end - 1;
    }
    assert(part.take(0) =~= Seq::<char>::empty());
    None
}

/// The extension of a file name as the name writes it; the empty text where
/// the name has none.
pub fn written_extension(name: &str) -> (r: &str)
    ensures
        r@ == written_extension_of(name@),
{
    let chars = chars_of(name);
    proof {
        reveal_strlit("");
        assert(""@ =~= Seq::<char>::empty());
    }
    // The final component is looked for from the end: `end` is where the part
    // of the name that is still in question stops.
    let mut end: usize = chars.len();
    let mut start: usize = 0;
    assert(name@.take(end as int) =~= name@);
    loop
        invariant_except_break
            end <= chars.len(),
            chars@ == name@,
            final_component(name@) == final_component(name@.take(end as int)),
        ensures
            start <= end <= chars.len(),
            chars@ == name@,
            final_component(name@) == name@.subrange(start as int, end as int),
        decreases end,
    {
        let ghost head = name@.take(end as int);
        assert(chars@.subrange(0, end as int) =~= head);
        let slash = last_position(&chars, 0, end, '/');
        start = match slash {
            Some(i) => i + 1,
            None => 0,
        };
        assert(head.skip(start as int) =~= name@.subrange(start as int, end as int));
        let nothing = start == end || (end - start == 1 && chars[start] == '.');
        assert(nothing == names_nothing(head.skip(start as int)));
        if !nothing {
            break;
        }
        match slash {
            Some(i) => {
                assert(head.take(i as int) =~= name@.take(i as int));
                end = i;
            },
            None => {
                assert(name@.subrange(0, 0) =~= Seq::<char>::empty());
                start = 0;
                end = 0;
                break;
            },
        }
    }
    let ghost component = name@.subrange(start as int, end as int);
    assert(chars@.subrange(start as int, end as int) =~= component);
    match last_position(&chars, start, end, '.') {
        Some(dot) => {
            if dot == start {
                ""
            } else {
                let extension = name.substring_char(dot + 1, end);
                assert(name@.subrange(dot + 1, end as int) =~= component.skip(dot - start + 1));
                extension
            }
        },
        None => "",
    }
}

/// The extension of a file name, in lower case; the empty text where the name
/// has none.
pub fn file_extension(name: &str) -> (r: String)
    ensures
        r@ == extension_of(name@),
{
    lowercase(written_extension(name))
}

/// Whether a character is a hexadecimal digit in lower case.
pub open spec fn is_lower_hex(c: char) -> bool {
    ('0' <= c <= '9') || ('a' <= c <= 'f')
}

/// The shape of a token: 32 hexadecimal digits in lower case, in groups of
/// 8, 4, 4, 4 and 12 with a `-` between them.
pub open spec fn is_token(t: Seq<char>) -> bool {
    &&& t.len() == 36
    &&& forall|i: int|
        0 <= i < 36 ==> if i == 8 || i == 13 || i == 18 || i == 23 {
            #[trigger] t[i] == '-'
        } else {
            is_lower_hex(t[i])
        }
}

/// Calls `uuid::Uuid::new_v4` and writes the identifier out the way its
/// `Display` does: hyphenated, in lower case. Which identifier comes is left
/// open; only the shape of its text is claimed. The call does not return where
/// the system has no random bytes to give.
#[verifier::external_body]
pub(crate) fn fresh_token() -> (t: String)
    ensures
        is_token(t@),
{
    uuid::Uuid::new_v4().to_string()
}

/// The extension that a converted file carries: that of the format, and for
/// a name that means no format the name itself.
pub open spec fn output_extension_of(format: Seq<char>) -> Seq<char> {
    match target_format_of(format) {
        Some(f) => f.extension_text(),
        None => format,
    }
}

/// The extension that a converted file carries.
pub fn output_extension(format: &str) -> (r: String)
    ensures
        r@ == output_extension_of(format@),
{
    match TargetFormat::from_name(format) {
        Some(f) => f.extension().to_owned(),
        None => format.to_owned(),
    }
}

/// The name of a converted file: the token, a `.`, and the extension of the
/// target format.
pub open spec fn converted_name_of(token: Seq<char>, format: Seq<char>) -> Seq<char> {
    token + "."@ + output_extension_of(format)
}

/// The name of a converted file: the token, a `.`, and the extension of the
/// target format.
pub fn converted_name(token: &str, format: &str) -> (r: String)
    ensures
        r@ == converted_name_of(token@, format@),
{
    let mut name = joined(token, ".");
    let extension = output_extension(format);
    name.append(extension.as_str());
    name
}

/// The name of a compressed file: `compressed-`, the token, a `.`, and the
/// extension.
pub open spec fn compressed_name_of(token: Seq<char>, extension: Seq<char>) -> Seq<char> {
    "compressed-"@ + token + "."@ + extension
}

/// The name of a compressed file: marked as compressed, and with the
/// extension of the file it was made from.
pub fn compressed_name(token: &str, extension: &str) -> (r: String)
    ensures
        r@ == compressed_name_of(token@, extension@),
{
    let mut name = joined("compressed-", token);
    name.append(".");
    name.append(extension);
    name
}

/// The name that stands in for a file that could not be produced: `error-`
/// and the token.
pub open spec fn error_name_of(token: Seq<char>) -> Seq<char> {
    "error-"@ + token
}

/// The name that stands in for a file that could not be produced.
pub fn error_name(token: &str) -> (r: String)
    ensures
        r@ == error_name_of(token@),
{
    joined("error-", token)
}

/// A token holds no `/` and no `.`: a name made of a token and an extension
/// has its only separators where the library puts them.
pub proof fn lemma_token_is_plain(token: Seq<char>)
    requires
        is_token(token),
    ensures
        !token.contains('/'),
        !token.contains('.'),
{
    assert forall|i: int| 0 <= i < token.len() implies token[i] != '/' && token[i] != '.' by {
        assert(token[i] == '-' || is_lower_hex(token[i]));
    }
}

/// A request that names no format, or an empty one, gets its files under
/// names that end in `.webp`.
pub proof fn lemma_default_format_gives_webp_names(token: Seq<char>)
    ensures
        converted_name_of(token, resolved_format(Seq::<char>::empty())) == token
            + ".webp"@,
{
    lemma_names_differ();
    reveal_strlit("webp");
    reveal_strlit(".");
    reveal_strlit(".webp");
    assert(token + "."@ + "webp"@ =~= token + ".webp"@);
}

/// The name of a converted JPEG ends in `.jpg`.
pub proof fn lemma_jpeg_names_end_in_jpg(token: Seq<char>)
    ensures
        converted_name_of(token, "jpeg"@) == token + ".jpg"@,
{
    reveal_strlit("jpg");
    reveal_strlit(".");
    reveal_strlit(".jpg");
    assert(token + "."@ + "jpg"@ =~= token + ".jpg"@);
}

/// The name of a file converted to a format that can be written holds no
/// `/`: wherever such a name is used as the name of a file in a directory,
/// the file is in that directory.
pub proof fn lemma_converted_names_are_plain(token: Seq<char>, format: Seq<char>)
    requires
        is_token(token),
        target_format_of(format) is Some,
    ensures
        !converted_name_of(token, format).contains('/'),
{
    reveal_strlit(".");
    reveal_strlit("jpg");
    reveal_strlit("png");
    reveal_strlit("webp");
    reveal_strlit("avif");
    lemma_token_is_plain(token);
    let extension = output_extension_of(format);
    let name = converted_name_of(token, format);
    assert forall|i: int| 0 <= i < extension.len() implies extension[i] != '/' by {}
    assert forall|i: int| 0 <= i < name.len() implies name[i] != '/' by {
        if i < token.len() {
            assert(name[i] == token[i]);
            assert(token.contains(token[i]));
        } else if i == token.len() {
            assert(name[i] == '.');
        } else {
            assert(name[i] == extension[i - token.len() - 1]);
        }
    }
}

} // verus!
