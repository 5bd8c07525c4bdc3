//! The error card shown in place of a playout item that could not be played.
use vstd::prelude::*;

use crate::text::{chars_of, decimal, digit_char, owned, push_char, push_decimal, push_str};

verus! {

broadcast use vstd::string::group_string_axioms;

/// The text with each CRLF or LF line break written as the ASS hard break `\N`.
pub open spec fn escape_newlines(s: Seq<char>) -> Seq<char>
    decreases s.len(),
{
    if s.len() == 0 {
        Seq::<char>::empty()
    } else if s.len() >= 2 && s[0] == '\r' && s[1] == '\n' {
        seq!['\\', 'N'] + escape_newlines(s.subrange(2, s.len() as int))
    } else if s[0] == '\n' {
        seq!['\\', 'N'] + escape_newlines(s.drop_first())
    } else {
        seq![s[0]] + escape_newlines(s.drop_first())
    }
}

/// One twentieth of the frame height, rounded to the nearest integer, halves up.
pub open spec fn twentieth(height: u32) -> nat {
    ((height as nat + 10) / 20) as nat
}

/// The ASS document: a 1-line event from the start to the end of the item, in the
/// default style, centred at the bottom, with font size and bottom margin a
/// twentieth of the frame height.
pub open spec fn error_card_spec(message: Seq<char>, width: u32, height: u32) -> Seq<char> {
    "[Script Info]\nScriptType: v4.00+\nWrapStyle: 0\nScaledBorderAndShadow: yes\nYCbCr Matrix: None\nPlayResX: "@
        + decimal(width as nat) + "\nPlayResY: "@ + decimal(height as nat)
        + "\n\n[V4+ Styles]\nFormat: Name, Fontname, Fontsize, PrimaryColour, OutlineColour, BorderStyle, Outline, Shadow, Alignment, Encoding\nStyle: Default,Roboto,"@
        + decimal(twentieth(height))
        + ",&HFFFFFF,,0,1,0,2,1\n\n[Events]\nFormat: Layer, Start, End, Style, Name, MarginL, MarginR, MarginV, Effect, Text\nDialogue: 0,0:00:00.00,99:99:99.99,Default,,0,0,"@
        + decimal(twentieth(height)) + ",,"@ + escape_newlines(message) + "\n"@
}

fn push_escaped(r: &mut String, message: &str)
    ensures
        final(r)@ == old(r)@ + escape_newlines(message@),
{
    let v = chars_of(message);
    let ghost start = r@;
    let mut i: usize = 0;
    assert(v@.subrange(0, v@.len() as int) =~= v@);
    while i < v.len()
        invariant
            0 <= i <= v@.len(),
            v@ == message@,
            r@ + escape_newlines(v@.subrange(i as int, v@.len() as int)) == start + escape_newlines(
                message@,
            ),
        decreases v@.len() - i,
    {
        let ghost rest = v@.subrange(i as int, v@.len() as int);
        if i + 1 < v.len() && v[i] == '\r' && v[i + 1] == '\n' {
            push_char(r, '\\');
            push_char(r, 'N');
            assert(rest.subrange(2, rest.len() as int) =~= v@.subrange(i + 2, v@.len() as int));
            i = i + 2;
        } else if v[i] == '\n' {
            push_char(r, '\\');
            push_char(r, 'N');
            assert(rest.drop_first() =~= v@.subrange(i + 1, v@.len() as int));
            i = i + 1;
        } else {
            push_char(r, v[i]);
            assert(rest.drop_first() =~= v@.subrange(i + 1, v@.len() as int));
            i = i + 1;
        }
        proof {
            let next = v@.subrange(i as int, v@.len() as int);
            assert(r@ + escape_newlines(next) =~= start + escape_newlines(message@));
        }
    }
    assert(v@.subrange(i as int, v@.len() as int) =~= Seq::<char>::empty());
    assert(r@ =~= start + escape_newlines(message@));
}

/// An ASS subtitle document that shows `message` centred near the bottom of a
/// `width` x `height` frame for the whole fallback item.
pub fn error_card_subtitle(message: &str, width: u32, height: u32) -> (r: String)
    ensures
        r@ == error_card_spec(message@, width, height),
{
    let size: u64 = (height as u64 + 10) / 20;
    let mut r = owned(
        "[Script Info]\nScriptType: v4.00+\nWrapStyle: 0\nScaledBorderAndShadow: yes\nYCbCr Matrix: None\nPlayResX: ",
    );
    push_decimal(&mut r, width as u64);
    push_str(&mut r, "\nPlayResY: ");
    push_decimal(&mut r, height as u64);
    push_str(
        &mut r,
        "\n\n[V4+ Styles]\nFormat: Name, Fontname, Fontsize, PrimaryColour, OutlineColour, BorderStyle, Outline, Shadow, Alignment, Encoding\nStyle: Default,Roboto,",
    );
    push_decimal(&mut r, size);
    push_str(
        &mut r,
        ",&HFFFFFF,,0,1,0,2,1\n\n[Events]\nFormat: Layer, Start, End, Style, Name, MarginL, MarginR, MarginV, Effect, Text\nDialogue: 0,0:00:00.00,99:99:99.99,Default,,0,0,",
    );
    push_decimal(&mut r, size);
    push_str(&mut r, ",,");
    push_escaped(&mut r, message);
    push_str(&mut r, "\n");
    r
}

/// The escaped message holds no line feed, so the dialogue stays one line of the
/// document whatever the message.
pub proof fn lemma_escaped_message_is_one_line(s: Seq<char>)
    ensures
        forall|i: int|
            0 <= i < escape_newlines(s).len() ==> #[trigger] escape_newlines(s)[i] != '\n',
    decreases s.len(),
{
    if s.len() == 0 {
    } else if s.len() >= 2 && s[0] == '\r' && s[1] == '\n' {
        lemma_escaped_message_is_one_line(s.subrange(2, s.len() as int));
        let rest = escape_newlines(s.subrange(2, s.len() as int));
        assert forall|i: int| 0 <= i < escape_newlines(s).len() implies #[trigger] escape_newlines(
            s,
        )[i] != '\n' by {
            if i >= 2 {
                assert(escape_newlines(s)[i] == rest[i - 2]);
            }
        }
    } else {
        lemma_escaped_message_is_one_line(s.drop_first());
        let rest = escape_newlines(s.drop_first());
        assert forall|i: int| 0 <= i < escape_newlines(s).len() implies #[trigger] escape_newlines(
            s,
        )[i] != '\n' by {
            if s[0] == '\n' {
                if i >= 2 {
                    assert(escape_newlines(s)[i] == rest[i - 2]);
                }
            } else {
                if i >= 1 {
                    assert(escape_newlines(s)[i] == rest[i - 1]);
                }
            }
        }
    }
}

/// The document opens with the script header and closes with the dialogue: margin,
/// empty effect, the escaped message and a final line feed.
pub proof fn lemma_error_card_frame(message: Seq<char>, width: u32, height: u32)
    ensures
        error_card_spec(message, width, height).take("[Script Info]\n"@.len() as int)
            == "[Script Info]\n"@,
        ({
            let tail = ","@ + decimal(twentieth(height)) + ",,"@ + escape_newlines(message)
                + "\n"@;
            let doc = error_card_spec(message, width, height);
            doc.len() >= tail.len() && doc.skip(doc.len() - tail.len()) == tail
        }),
{
    reveal_strlit("[Script Info]\n");
    reveal_strlit(
        "[Script Info]\nScriptType: v4.00+\nWrapStyle: 0\nScaledBorderAndShadow: yes\nYCbCr Matrix: None\nPlayResX: ",
    );
    reveal_strlit(
        ",&HFFFFFF,,0,1,0,2,1\n\n[Events]\nFormat: Layer, Start, End, Style, Name, MarginL, MarginR, MarginV, Effect, Text\nDialogue: 0,0:00:00.00,99:99:99.99,Default,,0,0,",
    );
    reveal_strlit(",");
    let doc = error_card_spec(message, width, height);
    let head = "[Script Info]\nScriptType: v4.00+\nWrapStyle: 0\nScaledBorderAndShadow: yes\nYCbCr Matrix: None\nPlayResX: "@;
    assert(doc.take(14) =~= head.take(14));
    assert(head.take(14) =~= "[Script Info]\n"@);
    let dialogue = ",&HFFFFFF,,0,1,0,2,1\n\n[Events]\nFormat: Layer, Start, End, Style, Name, MarginL, MarginR, MarginV, Effect, Text\nDialogue: 0,0:00:00.00,99:99:99.99,Default,,0,0,"@;
    let tail = ","@ + decimal(twentieth(height)) + ",,"@ + escape_newlines(message) + "\n"@;
    let pre = dialogue.take(dialogue.len() - 1);
    assert(dialogue =~= pre + ","@);
    let before = "[Script Info]\nScriptType: v4.00+\nWrapStyle: 0\nScaledBorderAndShadow: yes\nYCbCr Matrix: None\nPlayResX: "@
        + decimal(width as nat) + "\nPlayResY: "@ + decimal(height as nat)
        + "\n\n[V4+ Styles]\nFormat: Name, Fontname, Fontsize, PrimaryColour, OutlineColour, BorderStyle, Outline, Shadow, Alignment, Encoding\nStyle: Default,Roboto,"@
        + decimal(twentieth(height)) + pre;
    assert(doc =~= before + tail);
    assert(doc.skip(doc.len() - tail.len()) =~= tail);
}

/// Lines, each followed by a line feed.
pub open spec fn terminated(lines: Seq<Seq<char>>) -> Seq<char>
    decreases lines.len(),
{
    if lines.len() == 0 {
        Seq::<char>::empty()
    } else {
        terminated(lines.drop_last()) + lines.last() + seq!['\n']
    }
}

/// The number of line feeds in `s`.
pub open spec fn line_feeds(s: Seq<char>) -> nat
    decreases s.len(),
{
    if s.len() == 0 {
        0
    } else {
        line_feeds(s.drop_last()) + if s.last() == '\n' {
            1nat
        } else {
            0nat
        }
    }
}

/// No line feed occurs in `s`.
pub open spec fn one_line(s: Seq<char>) -> bool {
    forall|i: int| 0 <= i < s.len() ==> #[trigger] s[i] != '\n'
}

proof fn lemma_line_feeds_concat(a: Seq<char>, b: Seq<char>)
    ensures
        line_feeds(a + b) == line_feeds(a) + line_feeds(b),
    decreases b.len(),
{
    if b.len() == 0 {
        assert(a + b =~= a);
    } else {
        lemma_line_feeds_concat(a, b.drop_last());
        assert((a + b).drop_last() =~= a + b.drop_last());
    }
}

proof fn lemma_no_line_feeds(s: Seq<char>)
    requires
        one_line(s),
    ensures
        line_feeds(s) == 0,
    decreases s.len(),
{
    if s.len() > 0 {
        assert(one_line(s.drop_last())) by {
            assert forall|i: int| 0 <= i < s.drop_last().len() implies #[trigger] s.drop_last()[i]
                != '\n' by {
                assert(s.drop_last()[i] == s[i]);
            }
        }
        lemma_no_line_feeds(s.drop_last());
    }
}

proof fn lemma_decimal_one_line(n: nat)
    ensures
        one_line(decimal(n)),
    decreases n,
{
    if n >= 10 {
        lemma_decimal_one_line(n / 10);
        let d = decimal(n / 10);
        assert(decimal(n) == d.push(digit_char(n % 10)));
        assert forall|i: int| 0 <= i < decimal(n).len() implies #[trigger] decimal(n)[i] != '\n' by {
            if i < d.len() {
                assert(decimal(n)[i] == d[i]);
            }
        }
    } else {
        assert(decimal(n) == seq![digit_char(n)]);
    }
}

/// Lines without line feeds, each terminated, hold one line feed per line.
proof fn lemma_terminated_line_feeds(lines: Seq<Seq<char>>)
    requires
        forall|k: int| 0 <= k < lines.len() ==> one_line(#[trigger] lines[k]),
    ensures
        line_feeds(terminated(lines)) == lines.len(),
    decreases lines.len(),
{
    if lines.len() > 0 {
        let init = lines.drop_last();
        assert forall|k: int| 0 <= k < init.len() implies one_line(#[trigger] init[k]) by {
            assert(init[k] == lines[k]);
        }
        lemma_terminated_line_feeds(init);
        let last = lines.last();
        assert(one_line(lines[lines.len() - 1]));
        lemma_no_line_feeds(last);
        lemma_line_feeds_concat(terminated(init), last);
        lemma_line_feeds_concat(terminated(init) + last, seq!['\n']);
        let nl = seq!['\n'];
        assert(nl.drop_last() =~= Seq::<char>::empty());
        assert(nl.last() == '\n');
        assert(line_feeds(nl) == line_feeds(nl.drop_last()) + 1);
        assert(terminated(lines) == terminated(init) + last + nl);
    }
}

/// Text made of whole lines and one unterminated last line holds one line feed per
/// whole line.
proof fn lemma_block_line_feeds(s: Seq<char>, lines: Seq<Seq<char>>, rest: Seq<char>)
    requires
        s == terminated(lines) + rest,
        forall|k: int| 0 <= k < lines.len() ==> one_line(#[trigger] lines[k]),
        one_line(rest),
    ensures
        line_feeds(s) == lines.len(),
{
    lemma_terminated_line_feeds(lines);
    lemma_no_line_feeds(rest);
    lemma_line_feeds_concat(terminated(lines), rest);
}

proof fn lemma_script_info_feeds()
    ensures
        line_feeds(
            "[Script Info]\nScriptType: v4.00+\nWrapStyle: 0\nScaledBorderAndShadow: yes\nYCbCr Matrix: None\nPlayResX: "@,
        ) == 5,
{
    reveal_strlit(
        "[Script Info]\nScriptType: v4.00+\nWrapStyle: 0\nScaledBorderAndShadow: yes\nYCbCr Matrix: None\nPlayResX: ",
    );
    reveal_strlit("[Script Info]");
    reveal_strlit("ScriptType: v4.00+");
    reveal_strlit("WrapStyle: 0");
    reveal_strlit("ScaledBorderAndShadow: yes");
    reveal_strlit("YCbCr Matrix: None");
    reveal_strlit("PlayResX: ");
    let lines = seq![
        "[Script Info]"@,
        "ScriptType: v4.00+"@,
        "WrapStyle: 0"@,
        "ScaledBorderAndShadow: yes"@,
        "YCbCr Matrix: None"@,
    ];
    reveal_with_fuel(terminated, 6);
    assert(one_line(lines[0]) && one_line(lines[1]) && one_line(lines[2]) && one_line(lines[3])
        && one_line(lines[4]));
    assert(one_line("PlayResX: "@));
    assert("[Script Info]\nScriptType: v4.00+\nWrapStyle: 0\nScaledBorderAndShadow: yes\nYCbCr Matrix: None\nPlayResX: "@
        =~= terminated(lines) + "PlayResX: "@);
    lemma_block_line_feeds(
        "[Script Info]\nScriptType: v4.00+\nWrapStyle: 0\nScaledBorderAndShadow: yes\nYCbCr Matrix: None\nPlayResX: "@,
        lines,
        "PlayResX: "@,
    );
}

proof fn lemma_play_res_y_feeds()
    ensures
        line_feeds("\nPlayResY: "@) == 1,
{
    reveal_strlit("\nPlayResY: ");
    reveal_strlit("PlayResY: ");
    let lines = seq![Seq::<char>::empty()];
    reveal_with_fuel(terminated, 2);
    assert(one_line(lines[0]));
    assert(one_line("PlayResY: "@));
    assert("\nPlayResY: "@ =~= terminated(lines) + "PlayResY: "@);
    lemma_block_line_feeds("\nPlayResY: "@, lines, "PlayResY: "@);
}

proof fn lemma_styles_feeds()
    ensures
        line_feeds(
            "\n\n[V4+ Styles]\nFormat: Name, Fontname, Fontsize, PrimaryColour, OutlineColour, BorderStyle, Outline, Shadow, Alignment, Encoding\nStyle: Default,Roboto,"@,
        ) == 4,
{
    reveal_strlit(
        "\n\n[V4+ Styles]\nFormat: Name, Fontname, Fontsize, PrimaryColour, OutlineColour, BorderStyle, Outline, Shadow, Alignment, Encoding\nStyle: Default,Roboto,",
    );
    reveal_strlit("[V4+ Styles]");
    reveal_strlit(
        "Format: Name, Fontname, Fontsize, PrimaryColour, OutlineColour, BorderStyle, Outline, Shadow, Alignment, Encoding",
    );
    reveal_strlit("Style: Default,Roboto,");
    let lines = seq![
        Seq::<char>::empty(),
        Seq::<char>::empty(),
        "[V4+ Styles]"@,
        "Format: Name, Fontname, Fontsize, PrimaryColour, OutlineColour, BorderStyle, Outline, Shadow, Alignment, Encoding"@,
    ];
    reveal_with_fuel(terminated, 5);
    assert(one_line(lines[0]) && one_line(lines[1]) && one_line(lines[2]) && one_line(lines[3]));
    assert(one_line("Style: Default,Roboto,"@));
    assert("\n\n[V4+ Styles]\nFormat: Name, Fontname, Fontsize, PrimaryColour, OutlineColour, BorderStyle, Outline, Shadow, Alignment, Encoding\nStyle: Default,Roboto,"@
        =~= terminated(lines) + "Style: Default,Roboto,"@);
    lemma_block_line_feeds(
        "\n\n[V4+ Styles]\nFormat: Name, Fontname, Fontsize, PrimaryColour, OutlineColour, BorderStyle, Outline, Shadow, Alignment, Encoding\nStyle: Default,Roboto,"@,
        lines,
        "Style: Default,Roboto,"@,
    );
}

proof fn lemma_events_feeds()
    ensures
        line_feeds(
            ",&HFFFFFF,,0,1,0,2,1\n\n[Events]\nFormat: Layer, Start, End, Style, Name, MarginL, MarginR, MarginV, Effect, Text\nDialogue: 0,0:00:00.00,99:99:99.99,Default,,0,0,"@,
        ) == 4,
{
    reveal_strlit(
        ",&HFFFFFF,,0,1,0,2,1\n\n[Events]\nFormat: Layer, Start, End, Style, Name, MarginL, MarginR, MarginV, Effect, Text\nDialogue: 0,0:00:00.00,99:99:99.99,Default,,0,0,",
    );
    reveal_strlit(",&HFFFFFF,,0,1,0,2,1");
    reveal_strlit("[Events]");
    reveal_strlit(
        "Format: Layer, Start, End, Style, Name, MarginL, MarginR, MarginV, Effect, Text",
    );
    reveal_strlit("Dialogue: 0,0:00:00.00,99:99:99.99,Default,,0,0,");
    let lines = seq![
        ",&HFFFFFF,,0,1,0,2,1"@,
        Seq::<char>::empty(),
        "[Events]"@,
        "Format: Layer, Start, End, Style, Name, MarginL, MarginR, MarginV, Effect, Text"@,
    ];
    reveal_with_fuel(terminated, 5);
    assert(one_line(lines[0]) && one_line(lines[1]) && one_line(lines[2]) && one_line(lines[3]));
    assert(one_line("Dialogue: 0,0:00:00.00,99:99:99.99,Default,,0,0,"@));
    assert(",&HFFFFFF,,0,1,0,2,1\n\n[Events]\nFormat: Layer, Start, End, Style, Name, MarginL, MarginR, MarginV, Effect, Text\nDialogue: 0,0:00:00.00,99:99:99.99,Default,,0,0,"@
        =~= terminated(lines) + "Dialogue: 0,0:00:00.00,99:99:99.99,Default,,0,0,"@);
    lemma_block_line_feeds(
        ",&HFFFFFF,,0,1,0,2,1\n\n[Events]\nFormat: Layer, Start, End, Style, Name, MarginL, MarginR, MarginV, Effect, Text\nDialogue: 0,0:00:00.00,99:99:99.99,Default,,0,0,"@,
        lines,
        "Dialogue: 0,0:00:00.00,99:99:99.99,Default,,0,0,"@,
    );
}

proof fn lemma_short_literal_feeds()
    ensures
        line_feeds(",,"@) == 0,
        line_feeds("\n"@) == 1,
{
    reveal_strlit(",,");
    reveal_strlit("\n");
    assert(one_line(",,"@));
    lemma_no_line_feeds(",,"@);
    assert("\n"@.drop_last() =~= Seq::<char>::empty());
    assert("\n"@.last() == '\n');
    assert(line_feeds(Seq::<char>::empty()) == 0);
    assert(line_feeds("\n"@) == line_feeds("\n"@.drop_last()) + 1);
}

/// The error card holds exactly 15 line feeds whatever the message and the frame
/// size: line breaks in the message never break the dialogue line.
pub proof fn lemma_error_card_line_count(message: Seq<char>, width: u32, height: u32)
    ensures
        line_feeds(error_card_spec(message, width, height)) == 15,
{
    let a = "[Script Info]\nScriptType: v4.00+\nWrapStyle: 0\nScaledBorderAndShadow: yes\nYCbCr Matrix: None\nPlayResX: "@;
    let b = "\nPlayResY: "@;
    let c = "\n\n[V4+ Styles]\nFormat: Name, Fontname, Fontsize, PrimaryColour, OutlineColour, BorderStyle, Outline, Shadow, Alignment, Encoding\nStyle: Default,Roboto,"@;
    let d = ",&HFFFFFF,,0,1,0,2,1\n\n[Events]\nFormat: Layer, Start, End, Style, Name, MarginL, MarginR, MarginV, Effect, Text\nDialogue: 0,0:00:00.00,99:99:99.99,Default,,0,0,"@;
    let w = decimal(width as nat);
    let h = decimal(height as nat);
    let t = decimal(twentieth(height));
    let e = escape_newlines(message);
    lemma_script_info_feeds();
    lemma_play_res_y_feeds();
    lemma_styles_feeds();
    lemma_events_feeds();
    lemma_short_literal_feeds();
    lemma_decimal_one_line(width as nat);
    lemma_decimal_one_line(height as nat);
    lemma_decimal_one_line(twentieth(height));
    lemma_no_line_feeds(w);
    lemma_no_line_feeds(h);
    lemma_no_line_feeds(t);
    lemma_escaped_message_is_one_line(message);
    assert(one_line(e));
    lemma_no_line_feeds(e);
    lemma_line_feeds_concat(a, w);
    lemma_line_feeds_concat(a + w, b);
    lemma_line_feeds_concat(a + w + b, h);
    lemma_line_feeds_concat(a + w + b + h, c);
    lemma_line_feeds_concat(a + w + b + h + c, t);
    lemma_line_feeds_concat(a + w + b + h + c + t, d);
    lemma_line_feeds_concat(a + w + b + h + c + t + d, t);
    lemma_line_feeds_concat(a + w + b + h + c + t + d + t, ",,"@);
    lemma_line_feeds_concat(a + w + b + h + c + t + d + t + ",,"@, e);
    lemma_line_feeds_concat(a + w + b + h + c + t + d + t + ",,"@ + e, "\n"@);
}

} // verus!
