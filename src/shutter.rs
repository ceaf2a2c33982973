use vstd::prelude::*;
use vstd::string::*;

verus! {

/// What `str::trim` leaves of a text: the text without its leading and
/// trailing Unicode white space.
pub uninterp spec fn trim_of(s: Seq<char>) -> Seq<char>;

/// Relies on `str::trim`, which drops the leading and trailing white space
/// of a text; the result depends on the characters alone.
#[verifier::external_body]
fn trimmed(s: &str) -> (r: String)
    ensures
        r@ == trim_of(s@),
{
    s.trim().to_string()
}

/// The pieces of `s` between the separators, as `str::split` gives them.
pub open spec fn split_on(s: Seq<char>, sep: char) -> Seq<Seq<char>>
    decreases s.len(),
{
    if s.len() == 0 {
        seq![Seq::<char>::empty()]
    } else {
        let init = split_on(s.drop_last(), sep);
        if s.last() == sep {
            init.push(Seq::<char>::empty())
        } else {
            init.update(init.len() - 1, init.last().push(s.last()))
        }
    }
}

/// A shutter speed as the camera reports it, cut into the texts that are read
/// as numbers: a plain decimal, or the pieces of a fraction `a/b`, each
/// without its surrounding white space, to be divided left to right.
#[derive(Debug)]
pub enum ShutterText {
    Plain(String),
    Fraction(Vec<String>),
}

/// Cuts a reported shutter speed: with a `/` in it, into the trimmed pieces
/// between the slashes; otherwise the whole text, as it is.
pub fn split_shutter(text: &str) -> (r: ShutterText)
    ensures
        match r {
            ShutterText::Plain(t) => !text@.contains('/') && t@ == text@,
            ShutterText::Fraction(parts) => {
                &&& text@.contains('/')
                &&& parts@.len() == split_on(text@, '/').len()
                &&& forall|j: int|
                    0 <= j < parts@.len() ==> #[trigger] parts@[j]@ == trim_of(
                        split_on(text@, '/')[j],
                    )
            },
        },
{
    let n = text.unicode_len();
    let mut parts: Vec<String> = Vec::new();
    let ghost mut raw: Seq<Seq<char>> = Seq::empty();
    let mut start: usize = 0;
    let mut i: usize = 0;
    assert(text@.subrange(0, 0) =~= Seq::<char>::empty());
    assert(text@.subrange(0, 0) =~= text@.subrange(0, 0));
    while i < n
        invariant
            n == text@.len(),
            start <= i <= n,
            split_on(text@.subrange(0, i as int), '/') == raw.push(
                text@.subrange(start as int, i as int),
            ),
            parts@.len() == raw.len(),
            forall|j: int| 0 <= j < parts@.len() ==> #[trigger] parts@[j]@ == trim_of(raw[j]),
            (exists|j: int| 0 <= j < i && text@[j] == '/') <==> parts@.len() > 0,
        decreases n - i,
    {
        let c = text.get_char(i);
        let ghost pre = text@.subrange(0, i as int);
        let ghost post = text@.subrange(0, i + 1);
        assert(post.drop_last() =~= pre);
        assert(post.last() == c);
        if c == '/' {
            let piece = trimmed(text.substring_char(start, i));
            parts.push(piece);
            proof {
                raw = raw.push(text@.subrange(start as int, i as int));
                assert(text@.subrange(i + 1, i + 1) =~= Seq::<char>::empty());
            }
            start = i + 1;
        } else {
            proof {
                assert(text@.subrange(start as int, i as int).push(c) =~= text@.subrange(
                    start as int,
                    i + 1,
                ));
                assert(split_on(post, '/') =~= raw.push(text@.subrange(start as int, i + 1)));
            }
        }
        i = i + 1;
    }
    assert(text@.subrange(0, n as int) =~= text@);
    if parts.len() == 0 {
        return ShutterText::Plain(String::from_str(text));
    }
    let last = trimmed(text.substring_char(start, n));
    parts.push(last);
    proof {
        raw = raw.push(text@.subrange(start as int, n as int));
    }
    ShutterText::Fraction(parts)
}

} // verus!
