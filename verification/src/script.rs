//! The AppleScript that inserts a transcription into the focused text field
//! by way of the clipboard, and the text of the tray icon.

use vstd::prelude::*;

use crate::text::push_char;

verus! {

/// The script up to the first place where the escaped text goes: it saves the
/// clipboard, copies the character before the cursor and decides whether a
/// space must precede the text.
pub const INSERT_SCRIPT_HEAD: &'static str = r#"
use scripting additions
tell application "System Events"
    -- Save current clipboard
    set savedClip to the clipboard

    -- Clear clipboard so empty selection = empty clipboard
    set the clipboard to ""

    -- Select char before cursor
    key code 123 using shift down
    delay 0.02

    -- Copy selection
    keystroke "c" using command down
    delay 0.05

    -- Read what we got
    set prevChar to the clipboard as text

    -- Deselect (move right to restore cursor)
    key code 124
    delay 0.02

    -- Decide whether to add space
    set needsSpace to false
    if prevChar is not "" and prevChar is not " " and prevChar is not (ASCII character 10) and prevChar is not (ASCII character 13) and prevChar is not (ASCII character 9) then
        set needsSpace to true
    end if

    -- Set clipboard to transcription text (with space if needed)
    if needsSpace then
        set the clipboard to " "#;

/// The script between the two places where the escaped text goes.
pub const INSERT_SCRIPT_MIDDLE: &'static str = r#""
    else
        set the clipboard to ""#;

/// The script after the second place where the escaped text goes: it pastes
/// and restores the clipboard.
pub const INSERT_SCRIPT_TAIL: &'static str = r#""
    end if

    -- Paste
    keystroke "v" using command down
    delay 0.05

    -- Restore original clipboard
    set the clipboard to savedClip
end tell
"#;

/// How one character is written inside an AppleScript string literal: a
/// backslash or a double quote is preceded by a backslash.
pub open spec fn escape_char(c: char) -> Seq<char> {
    if c == '\\' {
        seq!['\\', '\\']
    } else if c == '"' {
        seq!['\\', '"']
    } else {
        seq![c]
    }
}

/// `s` written inside an AppleScript string literal.
pub open spec fn escape_applescript(s: Seq<char>) -> Seq<char>
    decreases s.len(),
{
    if s.len() == 0 {
        Seq::<char>::empty()
    } else {
        escape_char(s[0]) + escape_applescript(s.drop_first())
    }
}

/// What AppleScript reads from the body of a string literal: a backslash
/// stands for the character after it.
pub open spec fn unescape_applescript(s: Seq<char>) -> Seq<char>
    decreases s.len(),
{
    if s.len() == 0 {
        Seq::<char>::empty()
    } else if s[0] == '\\' && s.len() >= 2 {
        seq![s[1]] + unescape_applescript(s.subrange(2, s.len() as int))
    } else {
        seq![s[0]] + unescape_applescript(s.drop_first())
    }
}

/// Whether `s` can stand between the quotes of an AppleScript string literal
/// without ending it early: every double quote, and the closing quote, is
/// free of a pending backslash.
pub open spec fn is_literal_body(s: Seq<char>) -> bool
    decreases s.len(),
{
    if s.len() == 0 {
        true
    } else if s[0] == '\\' {
        s.len() >= 2 && is_literal_body(s.subrange(2, s.len() as int))
    } else {
        s[0] != '"' && is_literal_body(s.drop_first())
    }
}

/// The script that inserts `text`.
pub open spec fn insert_script_spec(text: Seq<char>) -> Seq<char> {
    INSERT_SCRIPT_HEAD@ + escape_applescript(text) + INSERT_SCRIPT_MIDDLE@ + escape_applescript(
        text,
    ) + INSERT_SCRIPT_TAIL@
}

/// The script pastes the whole text: it is the fixed script with two string
/// literals put in, each the body of a literal that AppleScript reads back
/// as exactly `text`.
pub proof fn law_insert_script_pastes_whole_text(text: Seq<char>)
    ensures
        exists|body: Seq<char>|
            #[trigger] unescape_applescript(body) == text && is_literal_body(body)
                && insert_script_spec(text) == INSERT_SCRIPT_HEAD@ + body + INSERT_SCRIPT_MIDDLE@
                + body + INSERT_SCRIPT_TAIL@,
{
    lemma_escape_roundtrip(text);
    lemma_escape_is_literal_body(text);
    let body = escape_applescript(text);
    assert(unescape_applescript(body) == text);
}

/// Escaping distributes over concatenation.
pub proof fn lemma_escape_append(a: Seq<char>, b: Seq<char>)
    ensures
        escape_applescript(a + b) == escape_applescript(a) + escape_applescript(b),
    decreases a.len(),
{
    if a.len() == 0 {
        assert(a + b =~= b);
    } else {
        assert((a + b).drop_first() =~= a.drop_first() + b);
        lemma_escape_append(a.drop_first(), b);
    }
}

/// Escaping loses nothing: AppleScript reads back from the escaped text
/// exactly the text that was escaped.
pub proof fn lemma_escape_roundtrip(text: Seq<char>)
    ensures
        unescape_applescript(escape_applescript(text)) == text,
    decreases text.len(),
{
    if text.len() > 0 {
        let c = text[0];
        let rest = escape_applescript(text.drop_first());
        lemma_escape_roundtrip(text.drop_first());
        let e = escape_applescript(text);
        assert(e == escape_char(c) + rest);
        if c == '\\' || c == '"' {
            assert(e[0] == '\\');
            assert(e[1] == c);
            assert(e.subrange(2, e.len() as int) =~= rest);
        } else {
            assert(e[0] == c);
            assert(e.drop_first() =~= rest);
        }
        assert(unescape_applescript(e) =~= text);
    }
}

/// Escaped text can stand between the quotes of a string literal: no quote
/// in it, nor a trailing backslash, ends the literal early.
pub proof fn lemma_escape_is_literal_body(text: Seq<char>)
    ensures
        is_literal_body(escape_applescript(text)),
    decreases text.len(),
{
    if text.len() > 0 {
        let c = text[0];
        let rest = escape_applescript(text.drop_first());
        lemma_escape_is_literal_body(text.drop_first());
        let e = escape_applescript(text);
        assert(e == escape_char(c) + rest);
        if c == '\\' || c == '"' {
            assert(e[0] == '\\');
            assert(e.subrange(2, e.len() as int) =~= rest);
        } else {
            assert(e[0] == c);
            assert(e.drop_first() =~= rest);
        }
    }
}

/// `text` written inside an AppleScript string literal: backslashes and
/// double quotes are each preceded by a backslash.
pub fn escape_for_applescript(text: &str) -> (r: String)
    ensures
        r@ == escape_applescript(text@),
{
    let n = text.unicode_len();
    let mut out = String::new();
    let mut i: usize = 0;
    while i < n
        invariant
            n == text@.len(),
            i <= n,
            out@ == escape_applescript(text@.take(i as int)),
        decreases n - i,
    {
        let c = text.get_char(i);
        proof {
            assert(text@.take(i + 1) =~= text@.take(i as int) + seq![c]);
            lemma_escape_append(text@.take(i as int), seq![c]);
            let single = seq![c];
            assert(single[0] == c);
            assert(single.drop_first() =~= Seq::<char>::empty());
            assert(escape_applescript(single.drop_first()) == Seq::<char>::empty());
            assert(escape_applescript(single) == escape_char(c) + escape_applescript(
                single.drop_first(),
            ));
            assert(escape_applescript(single) =~= escape_char(c));
        }
        if c == '\\' || c == '"' {
            push_char(&mut out, '\\');
        }
        push_char(&mut out, c);
        proof {
            assert(out@ =~= escape_applescript(text@.take(i as int)) + escape_char(c));
        }
        i = i + 1;
    }
    proof {
        assert(text@.take(n as int) =~= text@);
    }
    out
}

/// The AppleScript that pastes `text` into the focused text field, preceded
/// by a space where the character before the cursor is not blank, and then
/// restores the user's clipboard.
pub fn insert_text_script(text: &str) -> (r: String)
    ensures
        r@ == insert_script_spec(text@),
        r@ == INSERT_SCRIPT_HEAD@ + escape_applescript(text@) + INSERT_SCRIPT_MIDDLE@
            + escape_applescript(text@) + INSERT_SCRIPT_TAIL@,
        unescape_applescript(escape_applescript(text@)) == text@,
        is_literal_body(escape_applescript(text@)),
{
    proof {
        lemma_escape_roundtrip(text@);
        lemma_escape_is_literal_body(text@);
    }
    let escaped = escape_for_applescript(text);
    let mut script = String::from_str(INSERT_SCRIPT_HEAD);
    script.append(escaped.as_str());
    script.append(INSERT_SCRIPT_MIDDLE);
    script.append(escaped.as_str());
    script.append(INSERT_SCRIPT_TAIL);
    script
}

/// The tooltip of the tray icon while recording or idle.
pub fn tray_tooltip(recording: bool) -> (r: &'static str)
    ensures
        r@ == (if recording {
            "romescribe - Recording..."@
        } else {
            "romescribe"@
        }),
{
    if recording {
        "romescribe - Recording..."
    } else {
        "romescribe"
    }
}

} // verus!
