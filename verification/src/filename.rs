//! The name of the file in which a wallpaper is kept. It is made of the
//! title and the format alone, so that a wallpaper is found again on disk by
//! its title.

use crate::image::ImageFormat;
use crate::text::chars_of;
use crate::text::lower;
use crate::text::lowercase_of;
use crate::text::lowered;
use crate::text::text_of;
use crate::text::trim;
use crate::text::trimmed;
use crate::text::whitespace;
use vstd::prelude::*;

verus! {

/// Whether a character may not stand in a file name on a common file system.
pub open spec fn forbidden(c: char) -> bool {
    c == '<' || c == '>' || c == ':' || c == '"' || c == '/' || c == '\\' || c == '|' || c == '?'
        || c == '*'
}

/// The character that stands for `c` in a file name: an underscore for a
/// space, else `c` itself.
pub open spec fn underscored(c: char) -> char {
    if c == ' ' {
        '_'
    } else {
        c
    }
}

/// The characters of `s` that may stand in a file name, with underscores for
/// spaces.
pub open spec fn sanitized(s: Seq<char>) -> Seq<char> {
    s.filter(|c: char| !forbidden(c)).map_values(|c: char| underscored(c))
}

/// The file name of a title, without an extension: the title without the
/// white space around it, in lowercase, without forbidden characters, with
/// underscores for spaces.
pub open spec fn stem(title: Seq<char>) -> Seq<char> {
    sanitized(lowered(trimmed(title)))
}

/// The file name of a title in a format: stem, dot and extension. While the
/// format is unknown it is the stem alone.
pub open spec fn filename(title: Seq<char>, format: Option<ImageFormat>) -> Seq<char> {
    match format {
        Some(format) => stem(title) + "."@ + format.extension(),
        None => stem(title),
    }
}

/// The path of the file `name` in the directory `dir`: the directory, a slash
/// unless the directory ends in one, and the name. In the directory without
/// a name, which is the one in which the program runs, it is the name alone.
pub open spec fn path_in(dir: Seq<char>, name: Seq<char>) -> Seq<char> {
    if dir.len() == 0 {
        name
    } else if dir.last() == '/' {
        dir + name
    } else {
        dir + "/"@ + name
    }
}

fn is_forbidden(c: char) -> (r: bool)
    ensures
        r == forbidden(c),
{
    c == '<' || c == '>' || c == ':' || c == '"' || c == '/' || c == '\\' || c == '|' || c == '?'
        || c == '*'
}

/// Drops the characters that may not stand in a file name and puts
/// underscores for spaces.
pub fn sanitize(chars: &Vec<char>) -> (r: Vec<char>)
    ensures
        r@ == sanitized(chars@),
{
    let mut r: Vec<char> = Vec::new();
    let mut i: usize = 0;
    while i < chars.len()
        invariant
            i <= chars.len(),
            r@ == sanitized(chars@.take(i as int)),
        decreases chars.len() - i,
    {
        let c = chars[i];
        proof {
            let allowed = |c: char| !forbidden(c);
            let before = chars@.take(i as int);
            assert(chars@.take(i + 1) =~= before.push(c));
            before.lemma_filter_push(c, allowed);
            if !forbidden(c) {
                assert(before.filter(allowed).push(c).map_values(|c: char| underscored(c))
                    =~= sanitized(before).push(underscored(c)));
            }
        }
        if !is_forbidden(c) {
            if c == ' ' {
                r.push('_');
            } else {
                r.push(c);
            }
        }
        i += 1;
    }
    assert(chars@.take(chars.len() as int) =~= chars@);
    r
}

/// The file name of a title in a format, or of a title alone while the format
/// is unknown.
pub fn file_name(title: &str, format: Option<ImageFormat>) -> (name: String)
    ensures
        name@ == filename(title@, format),
{
    let stem = sanitize(&lower(&trim(&chars_of(title))));
    let mut name = text_of(&stem);
    match format {
        Some(format) => {
            name.append(".");
            name.append(format.name());
        },
        None => {},
    }
    name
}

/// Joins a directory and a file name to a path.
pub fn join(dir: &str, name: &str) -> (path: String)
    ensures
        path@ == path_in(dir@, name@),
{
    let dir_chars = chars_of(dir);
    let mut path = dir.to_owned();
    if dir_chars.len() > 0 && dir_chars[dir_chars.len() - 1] != '/' {
        path.push('/');
        proof {
            reveal_strlit("/");
        }
    }
    path.append(name);
    path
}

/// Where each character of a text has a lowercase form of one character, the
/// lowercase form of the text has these characters, one for one.
proof fn lemma_lowered_one_for_one(s: Seq<char>)
    requires
        forall|i: int| 0 <= i < s.len() ==> lowercase_of(#[trigger] s[i]).len() == 1,
    ensures
        lowered(s) == s.map_values(|c: char| lowercase_of(c)[0]),
    decreases s.len(),
{
    let forms = |c: char| lowercase_of(c);
    let firsts = |c: char| lowercase_of(c)[0];
    if s.len() == 0 {
        assert(s.map_values(forms) =~= Seq::<Seq<char>>::empty());
        assert(lowered(s) =~= s.map_values(firsts));
    } else {
        let init = s.drop_last();
        assert forall|i: int| 0 <= i < init.len() implies lowercase_of(#[trigger] init[i]).len()
            == 1 by {
            assert(init[i] == s[i]);
        }
        lemma_lowered_one_for_one(init);
        assert(s.map_values(forms) =~= init.map_values(forms).push(lowercase_of(s.last())));
        init.map_values(forms).lemma_flatten_push(lowercase_of(s.last()));
        assert(lowercase_of(s.last()) =~= seq![lowercase_of(s.last())[0]]);
        assert(lowered(s) =~= s.map_values(firsts));
    }
}

/// The stem of a plain title, as far as it rests on nothing but what Unicode
/// says of the characters of the title. Where the title neither begins nor
/// ends with white space, and each of its characters has a lowercase form of
/// one character, the stem is made of these lowercase forms, without those
/// that may not stand in a file name, with underscores for spaces.
pub proof fn lemma_stem_of_plain_title(title: Seq<char>)
    requires
        title.len() > 0,
        !whitespace(title.first()),
        !whitespace(title.last()),
        forall|i: int| 0 <= i < title.len() ==> lowercase_of(#[trigger] title[i]).len() == 1,
    ensures
        stem(title) == sanitized(title.map_values(|c: char| lowercase_of(c)[0])),
{
    assert(trimmed(title) == title);
    lemma_lowered_one_for_one(title);
}

/// The file name of a wallpaper holds none of the characters that may not
/// stand in a file name, whatever its title.
pub proof fn lemma_filename_is_clean(title: Seq<char>, format: Option<ImageFormat>)
    ensures
        forall|i: int|
            0 <= i < filename(title, format).len() ==> !forbidden(
                #[trigger] filename(title, format)[i],
            ),
{
    let allowed = |c: char| !forbidden(c);
    assert forall|i: int| 0 <= i < stem(title).len() implies !forbidden(
        #[trigger] stem(title)[i],
    ) by {
        lowered(trimmed(title)).lemma_filter_pred(allowed, i);
    }
    reveal_strlit(".");
    reveal_strlit("jpeg");
    reveal_strlit("png");
    reveal_strlit("gif");
    match format {
        Some(format) => {
            let extension = format.extension();
            assert forall|i: int| 0 <= i < extension.len() implies !forbidden(
                #[trigger] extension[i],
            ) by {}
            assert forall|i: int| 0 <= i < filename(title, Some(format)).len() implies !forbidden(
                #[trigger] filename(title, Some(format))[i],
            ) by {
                // The character stands in the stem, is the dot, or stands in
                // the extension.
                let name = filename(title, Some(format));
                if i > stem(title).len() {
                    assert(name[i] == extension[i - stem(title).len() - 1]);
                }
            }
        },
        None => {},
    }
}

} // verus!
