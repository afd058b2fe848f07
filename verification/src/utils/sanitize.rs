//! Cleaning of chat text before it is relayed.

use vstd::prelude::*;

use crate::utils::text::push_char;

verus! {

/// Whether a character may appear in relayed chat: printable ASCII without
/// the backtick, and the accented letters and signs of the in-game font.
pub open spec fn allowed(c: char) -> bool {
    let code = c as u32;
    ||| (0x20 <= code <= 0x7e && code != 0x60)
    ||| code == 0xa1
    ||| code == 0xa3
    ||| code == 0xaa
    ||| code == 0xab
    ||| code == 0xac
    ||| code == 0xae
    ||| code == 0xba
    ||| code == 0xbb
    ||| code == 0xbc
    ||| code == 0xbd
    ||| code == 0xbf
    ||| code == 0xc4
    ||| code == 0xc5
    ||| code == 0xc6
    ||| code == 0xc7
    ||| code == 0xc9
    ||| code == 0xd1
    ||| code == 0xd6
    ||| code == 0xd7
    ||| code == 0xd8
    ||| code == 0xdc
    ||| code == 0xe0
    ||| code == 0xe1
    ||| code == 0xe2
    ||| code == 0xe4
    ||| code == 0xe5
    ||| code == 0xe6
    ||| code == 0xe7
    ||| code == 0xe8
    ||| code == 0xe9
    ||| code == 0xea
    ||| code == 0xeb
    ||| code == 0xec
    ||| code == 0xed
    ||| code == 0xee
    ||| code == 0xef
    ||| code == 0xf1
    ||| code == 0xf2
    ||| code == 0xf3
    ||| code == 0xf4
    ||| code == 0xf6
    ||| code == 0xf8
    ||| code == 0xf9
    ||| code == 0xfa
    ||| code == 0xfb
    ||| code == 0xfc
    ||| code == 0xff
    ||| code == 0x192
    ||| code == 0x2302
}

/// What the profanity filter makes of a text: the text with the characters
/// of each profane word after its first replaced by `*`, diacritics folded.
pub uninterp spec fn censored(text: Seq<char>) -> Seq<char>;

/// `rustrict::Censor::new` on the characters of `text`, then
/// `Censor::censor`, with the crate's built-in word list and default
/// options. The result is a function of the text alone; it is named, not
/// described.
#[verifier::external_body]
fn censor(text: &str) -> (clean: String)
    ensures
        clean@ == censored(text@),
{
    rustrict::Censor::new(text.chars()).censor()
}

pub fn is_allowed(c: char) -> (ok: bool)
    ensures
        ok == allowed(c),
{
    let code: u32 = c as u32;
    (0x20 <= code && code <= 0x7e && code != 0x60) || (
        code == 0xa1 || code == 0xa3 || code == 0xaa || code == 0xab || code == 0xac
        || code == 0xae || code == 0xba || code == 0xbb || code == 0xbc || code == 0xbd
        || code == 0xbf || code == 0xc4 || code == 0xc5 || code == 0xc6 || code == 0xc7
        || code == 0xc9 || code == 0xd1 || code == 0xd6 || code == 0xd7 || code == 0xd8
        || code == 0xdc || code == 0xe0 || code == 0xe1 || code == 0xe2 || code == 0xe4
        || code == 0xe5 || code == 0xe6 || code == 0xe7 || code == 0xe8 || code == 0xe9
        || code == 0xea || code == 0xeb || code == 0xec || code == 0xed || code == 0xee
        || code == 0xef || code == 0xf1 || code == 0xf2 || code == 0xf3 || code == 0xf4
        || code == 0xf6 || code == 0xf8 || code == 0xf9 || code == 0xfa || code == 0xfb
        || code == 0xfc || code == 0xff || code == 0x192 || code == 0x2302)
}

/// The characters of `m` that are allowed, in their order.
pub fn keep_allowed(m: &str) -> (kept: String)
    ensures
        kept@ == m@.filter(|c: char| allowed(c)),
{
    let ghost pred = |c: char| allowed(c);
    let n = m.unicode_len();
    let mut kept = String::new();
    let mut i: usize = 0;
    proof {
        assert(m@.subrange(0, 0) =~= Seq::<char>::empty());
        reveal(Seq::filter);
    }
    while i < n
        invariant
            n == m@.len(),
            i <= n,
            pred == (|c: char| allowed(c)),
            kept@ == m@.subrange(0, i as int).filter(pred),
        decreases n - i,
    {
        let c = m.get_char(i);
        proof {
            let before = m@.subrange(0, i as int);
            let after = m@.subrange(0, i + 1);
            assert(after.drop_last() =~= before);
            assert(after.last() == c);
            reveal(Seq::filter);
            assert(after.filter(pred) == if pred(c) {
                before.filter(pred).push(c)
            } else {
                before.filter(pred)
            });
        }
        if is_allowed(c) {
            push_char(&mut kept, c);
        }
        i += 1;
    }
    proof {
        assert(m@.subrange(0, n as int) =~= m@);
    }
    kept
}

/// Restricts `m` to the allowed characters, then censors profanity.
pub fn sanitize_message(m: &str) -> (clean: String)
    ensures
        clean@ == censored(m@.filter(|c: char| allowed(c))),
{
    let kept = keep_allowed(m);
    censor(kept.as_str())
}

} // verus!
