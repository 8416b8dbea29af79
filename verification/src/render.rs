//! The display structure of received lines: splitting a chat line into its
//! author and content, detecting mentions, and assembling the rendered
//! plain text.  Color and styling are a terminal concern outside the
//! library; they key off the decisions exported here (`is_mention`,
//! `has_mention`, the author/content split).

use vstd::prelude::*;
use crate::text::contains_seq;
use crate::text::contains_sub;
use crate::text::eq_str;
use crate::text::find_char;
use crate::text::join_strings;
use crate::text::join_with;
use crate::text::split_words;
use crate::text::trim_spec;
use crate::text::trim_str;
use crate::text::words;

verus! {

/// Index of the first `':'` in `s`, or `s.len()` when there is none.
pub open spec fn colon_index(s: Seq<char>) -> int
    decreases s.len(),
{
    if s.len() == 0 {
        0
    } else if s[0] == ':' {
        0
    } else {
        1 + colon_index(s.skip(1))
    }
}

/// `colon_index` is pinned by its characters: `n` non-colon characters
/// followed by the end of the sequence or a colon.
pub proof fn lemma_colon_index_range(s: Seq<char>, n: int)
    requires
        0 <= n <= s.len(),
        forall|k: int| 0 <= k < n ==> s[k] != ':',
        n == s.len() || s[n] == ':',
    ensures
        colon_index(s) == n,
    decreases n,
{
    if n == 0 {
        assert(s.len() == 0 || s[0] == ':');
    } else {
        let t = s.skip(1);
        assert forall|k: int| 0 <= k < n - 1 implies t[k] != ':' by {
            assert(t[k] == s[k + 1]);
        }
        if n < s.len() {
            assert(t[n - 1] == s[n]);
        }
        lemma_colon_index_range(t, n - 1);
    }
}

/// Whether the single word `w` mentions `my`: exactly `@<my>` or `@all`.
pub open spec fn spec_is_mention(w: Seq<char>, my: Seq<char>) -> bool {
    w == "@"@ + my || w == "@all"@
}

/// Whether the word `word` is a mention of `my_username` or of everyone.
pub fn is_mention(word: &str, my_username: &str) -> (r: bool)
    ensures
        r == spec_is_mention(word@, my_username@),
{
    let mut handle = String::from_str("@");
    handle.append(my_username);
    if eq_str(word, handle.as_str()) {
        true
    } else {
        eq_str(word, "@all")
    }
}

/// Whether `content` contains `@<my>` or `@all` anywhere.
pub open spec fn spec_has_mention(content: Seq<char>, my: Seq<char>) -> bool {
    contains_seq(content, "@"@ + my) || contains_seq(content, "@all"@)
}

/// Whether `content` mentions `my_username` or everyone somewhere.
pub fn has_mention(content: &str, my_username: &str) -> (r: bool)
    ensures
        r == spec_has_mention(content@, my_username@),
{
    let mut handle = String::from_str("@");
    handle.append(my_username);
    if contains_sub(content, handle.as_str()) {
        true
    } else {
        contains_sub(content, "@all")
    }
}

/// The rendered plain text of a received line.  A server notice is the
/// timestamp and the line itself.  A chat line is split at its first
/// colon into author and content, both trimmed; content that carries a
/// mention is re-joined from its words with single spaces (the rendering
/// that styles each mention word), other content stays as it is.
pub open spec fn spec_format_message(
    msg: Seq<char>,
    is_server: bool,
    my: Seq<char>,
    ts: Seq<char>,
) -> Seq<char> {
    if is_server {
        ts + " "@ + msg
    } else {
        let ci = colon_index(msg);
        let u = trim_spec(msg.take(ci));
        let c = if ci < msg.len() {
            trim_spec(msg.skip(ci + 1))
        } else {
            Seq::<char>::empty()
        };
        let fc = if spec_has_mention(c, my) {
            join_with(words(c), " "@)
        } else {
            c
        };
        ts + " "@ + u + ": "@ + fc
    }
}

/// Assembles the rendered plain text of a received line for display.
pub fn format_message(
    message: &str,
    is_server_message: bool,
    my_username: &str,
    timestamp: &str,
) -> (r: String)
    ensures
        r@ == spec_format_message(message@, is_server_message, my_username@, timestamp@),
{
    if is_server_message {
        let mut r = String::from_str(timestamp);
        r.append(" ");
        r.append(message);
        return r;
    }
    let len = message.unicode_len();
    let colon = find_char(message, ':');
    let u: String;
    let c: String;
    match colon {
        Some(i) => {
            proof {
                lemma_colon_index_range(message@, i as int);
            }
            proof {
                assert(message@.take(i as int) =~= message@.subrange(0, i as int));
                assert(message@.skip(i as int + 1) =~= message@.subrange(i as int + 1, len as int));
            }
            u = trim_str(message.substring_char(0, i));
            c = trim_str(message.substring_char(i + 1, len));
        },
        None => {
            proof {
                lemma_colon_index_range(message@, len as int);
            }
            proof {
                assert(message@.take(len as int) =~= message@);
            }
            u = trim_str(message);
            c = String::new();
            proof {
                assert(trim_spec(Seq::<char>::empty()) =~= Seq::<char>::empty());
            }
        },
    }
    let fc: String;
    if has_mention(c.as_str(), my_username) {
        let ws = split_words(c.as_str());
        fc = join_strings(&ws, " ");
    } else {
        fc = c;
    }
    let mut r = String::from_str(timestamp);
    r.append(" ");
    r.append(u.as_str());
    r.append(": ");
    r.append(fc.as_str());
    r
}

} // verus!
