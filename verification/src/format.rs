//! Output formats and the names by which a caller asks for them.

use vstd::prelude::*;
use vstd::string::StrSliceExecFns;

verus! {

/// A raster format that a caller can name.
#[derive(Clone, Copy, Debug, PartialEq, Eq, Structural)]
pub enum ImageFormat {
    Jpeg,
    Png,
    Webp,
}

/// The lower-case form of an ASCII capital; every other character unchanged.
pub open spec fn ascii_lower(c: char) -> char {
    if 'A' <= c && c <= 'Z' {
        ((c as u32) + 32) as char
    } else {
        c
    }
}

/// `name` with every ASCII capital replaced by its lower-case form.
pub open spec fn lowered(name: Seq<char>) -> Seq<char> {
    Seq::new(name.len(), |i: int| ascii_lower(name[i]))
}

/// The format that `name` stands for, ignoring the case of ASCII letters.
pub open spec fn format_named(name: Seq<char>) -> Option<ImageFormat> {
    let l = lowered(name);
    if l == "jpeg"@ || l == "jpg"@ {
        Some(ImageFormat::Jpeg)
    } else if l == "png"@ {
        Some(ImageFormat::Png)
    } else if l == "webp"@ {
        Some(ImageFormat::Webp)
    } else {
        None
    }
}

/// Lowers one character.
fn lower_char(c: char) -> (l: char)
    ensures
        l == ascii_lower(c),
{
    if c == 'A' { 'a' } else if c == 'B' { 'b' } else if c == 'C' { 'c' } else if c == 'D' { 'd' }
    else if c == 'E' { 'e' } else if c == 'F' { 'f' } else if c == 'G' { 'g' }
    else if c == 'H' { 'h' } else if c == 'I' { 'i' } else if c == 'J' { 'j' }
    else if c == 'K' { 'k' } else if c == 'L' { 'l' } else if c == 'M' { 'm' }
    else if c == 'N' { 'n' } else if c == 'O' { 'o' } else if c == 'P' { 'p' }
    else if c == 'Q' { 'q' } else if c == 'R' { 'r' } else if c == 'S' { 's' }
    else if c == 'T' { 't' } else if c == 'U' { 'u' } else if c == 'V' { 'v' }
    else if c == 'W' { 'w' } else if c == 'X' { 'x' } else if c == 'Y' { 'y' }
    else if c == 'Z' { 'z' } else { c }
}

/// Tells whether `name`, lowered, reads `word`.
pub fn reads_as(name: &str, word: &str) -> (b: bool)
    ensures
        b == (lowered(name@) == word@),
{
    let n = name.unicode_len();
    if n != word.unicode_len() {
        return false;
    }
    let mut i: usize = 0;
    while i < n
        invariant
            i <= n,
            n == name@.len(),
            n == word@.len(),
            forall|k: int| 0 <= k < i ==> ascii_lower(name@[k]) == word@[k],
        decreases n - i,
    {
        if lower_char(name.get_char(i)) != word.get_char(i) {
            assert(lowered(name@)[i as int] != word@[i as int]);
            return false;
        }
        i += 1;
    }
    assert(lowered(name@) =~= word@);
    true
}

/// Finds the format that `name` stands for.
pub fn parse_format(name: &str) -> (f: Option<ImageFormat>)
    ensures
        f == format_named(name@),
{
    if reads_as(name, "jpeg") || reads_as(name, "jpg") {
        Some(ImageFormat::Jpeg)
    } else if reads_as(name, "png") {
        Some(ImageFormat::Png)
    } else if reads_as(name, "webp") {
        Some(ImageFormat::Webp)
    } else {
        None
    }
}

/// The name `"webp"` stands for WebP, in whatever case its letters are written.
pub proof fn lemma_webp_is_named(name: Seq<char>)
    requires
        lowered(name) == "webp"@,
    ensures
        format_named(name) == Some(ImageFormat::Webp),
        format_named("webp"@) == Some(ImageFormat::Webp),
{
    reveal_strlit("webp");
    reveal_strlit("jpeg");
    reveal_strlit("jpg");
    reveal_strlit("png");
    let w = "webp"@;
    assert(w.len() == 4 && w[0] == 'w');
    assert("jpeg"@[0] == 'j' && "jpg"@.len() == 3 && "png"@.len() == 3);
    assert(lowered(w) =~= w);
}

} // verus!
