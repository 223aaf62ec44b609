//! The text side of tray notifications: XML escaping of toast texts, the
//! toast document, UTF-16 encoding of window texts, and the decisions of
//! the tray's message loop.

use vstd::prelude::*;
use vstd::string::StrSliceExecFns;

use crate::i18n::{raw_text, CachedTranslations, RawKey};
use crate::small_lists::{MessageBuffer, TitleBuffer, TooltipBuffer};
use crate::text::{push_char, push_str};

verus! {

/// The escape of one character: the five XML special characters become
/// entity references, every other character stays as it is.
pub open spec fn escape_char(c: char) -> Seq<char> {
    if c == '&' {
        seq!['&', 'a', 'm', 'p', ';']
    } else if c == '<' {
        seq!['&', 'l', 't', ';']
    } else if c == '>' {
        seq!['&', 'g', 't', ';']
    } else if c == '"' {
        seq!['&', 'q', 'u', 'o', 't', ';']
    } else if c == '\'' {
        seq!['&', 'a', 'p', 'o', 's', ';']
    } else {
        seq![c]
    }
}

/// A text with every character escaped.
pub open spec fn xml_escaped(s: Seq<char>) -> Seq<char>
    decreases s.len(),
{
    if s.len() == 0 {
        Seq::empty()
    } else {
        escape_char(s[0]) + xml_escaped(s.drop_first())
    }
}

/// Reads escaped text back: each of the five entity references gives its
/// character, any other character stands for itself.
pub open spec fn xml_unescaped(t: Seq<char>) -> Seq<char>
    decreases t.len(),
{
    if t.len() == 0 {
        Seq::empty()
    } else if t.len() >= 5 && t.take(5) == seq!['&', 'a', 'm', 'p', ';'] {
        seq!['&'] + xml_unescaped(t.skip(5))
    } else if t.len() >= 4 && t.take(4) == seq!['&', 'l', 't', ';'] {
        seq!['<'] + xml_unescaped(t.skip(4))
    } else if t.len() >= 4 && t.take(4) == seq!['&', 'g', 't', ';'] {
        seq!['>'] + xml_unescaped(t.skip(4))
    } else if t.len() >= 6 && t.take(6) == seq!['&', 'q', 'u', 'o', 't', ';'] {
        seq!['"'] + xml_unescaped(t.skip(6))
    } else if t.len() >= 6 && t.take(6) == seq!['&', 'a', 'p', 'o', 's', ';'] {
        seq!['\''] + xml_unescaped(t.skip(6))
    } else {
        seq![t[0]] + xml_unescaped(t.drop_first())
    }
}

proof fn lemma_escaped_append(a: Seq<char>, b: Seq<char>)
    ensures
        xml_escaped(a + b) == xml_escaped(a) + xml_escaped(b),
    decreases a.len(),
{
    if a.len() == 0 {
        assert(a + b =~= b);
    } else {
        assert((a + b).drop_first() =~= a.drop_first() + b);
        lemma_escaped_append(a.drop_first(), b);
        assert(xml_escaped(a + b) =~= xml_escaped(a) + xml_escaped(b));
    }
}

proof fn lemma_escaped_push(a: Seq<char>, c: char)
    ensures
        xml_escaped(a.push(c)) == xml_escaped(a) + escape_char(c),
{
    lemma_escaped_append(a, seq![c]);
    assert(a.push(c) =~= a + seq![c]);
    assert(seq![c].drop_first() =~= Seq::<char>::empty());
    assert(xml_escaped(Seq::<char>::empty()) == Seq::<char>::empty());
    assert(xml_escaped(seq![c]) == escape_char(c) + xml_escaped(seq![c].drop_first()));
    assert(xml_escaped(seq![c]) =~= escape_char(c));
}

/// Reading escaped text back gives the original text.
pub proof fn lemma_xml_escape_round_trip(s: Seq<char>)
    ensures
        xml_unescaped(xml_escaped(s)) == s,
    decreases s.len(),
{
    if s.len() > 0 {
        let c = s[0];
        let rest = xml_escaped(s.drop_first());
        let t = xml_escaped(s);
        assert(t == escape_char(c) + rest);
        lemma_xml_escape_round_trip(s.drop_first());
        let e = escape_char(c);
        if c == '&' || c == '<' || c == '>' || c == '"' || c == '\'' {
            assert(t.take(e.len() as int) =~= e);
            assert(t.skip(e.len() as int) =~= rest);
            assert(t[0] == '&');
            assert(t[1] == e[1]);
            assert(t[2] == e[2]);
            let amp = seq!['&', 'a', 'm', 'p', ';'];
            let lt = seq!['&', 'l', 't', ';'];
            let gt = seq!['&', 'g', 't', ';'];
            let quot = seq!['&', 'q', 'u', 'o', 't', ';'];
            if c != '&' {
                assert(!(t.len() >= 5 && t.take(5) == amp)) by {
                    if t.len() >= 5 && t.take(5) == amp {
                        assert(t.take(5)[1] == t[1]);
                        assert(t.take(5)[2] == t[2]);
                    }
                }
            }
            if c != '&' && c != '<' {
                assert(!(t.len() >= 4 && t.take(4) == lt)) by {
                    if t.len() >= 4 && t.take(4) == lt {
                        assert(t.take(4)[1] == t[1]);
                    }
                }
            }
            if c != '&' && c != '<' && c != '>' {
                assert(!(t.len() >= 4 && t.take(4) == gt)) by {
                    if t.len() >= 4 && t.take(4) == gt {
                        assert(t.take(4)[1] == t[1]);
                    }
                }
            }
            if c == '\'' {
                assert(!(t.len() >= 6 && t.take(6) == quot)) by {
                    if t.len() >= 6 && t.take(6) == quot {
                        assert(t.take(6)[1] == t[1]);
                    }
                }
            }
            assert(xml_unescaped(t) =~= seq![c] + xml_unescaped(rest));
        } else {
            assert(t[0] == c);
            assert(t.len() >= 5 ==> t.take(5)[0] == c);
            assert(t.len() >= 4 ==> t.take(4)[0] == c);
            assert(t.len() >= 6 ==> t.take(6)[0] == c);
            assert(t.drop_first() =~= rest);
            assert(xml_unescaped(t) =~= seq![c] + xml_unescaped(rest));
        }
        assert(seq![c] + s.drop_first() =~= s);
    }
}

/// Escaped text holds none of `<`, `>`, `"` and `'`: they all became
/// entity references.
pub proof fn lemma_xml_escaped_has_no_markup(s: Seq<char>)
    ensures
        !xml_escaped(s).contains('<'),
        !xml_escaped(s).contains('>'),
        !xml_escaped(s).contains('"'),
        !xml_escaped(s).contains('\''),
    decreases s.len(),
{
    if s.len() > 0 {
        lemma_xml_escaped_has_no_markup(s.drop_first());
        let e = escape_char(s[0]);
        let r = xml_escaped(s.drop_first());
        assert(xml_escaped(s) == e + r);
        assert forall|i: int| 0 <= i < (e + r).len() implies (e + r)[i] != '<' && (e + r)[i] != '>'
            && (e + r)[i] != '"' && (e + r)[i] != '\'' by {
            if i >= e.len() {
                assert((e + r)[i] == r[i - e.len()]);
                assert(r.contains(r[i - e.len()]));
            }
        }
    }
}

/// Text without special characters is left as it is.
pub proof fn lemma_xml_escape_plain_text(s: Seq<char>)
    requires
        forall|i: int|
            0 <= i < s.len() ==> s[i] != '&' && s[i] != '<' && s[i] != '>' && s[i] != '"' && s[i]
                != '\'',
    ensures
        xml_escaped(s) == s,
    decreases s.len(),
{
    if s.len() > 0 {
        lemma_xml_escape_plain_text(s.drop_first());
        assert(seq![s[0]] + s.drop_first() =~= s);
    }
}

fn push_escaped_char(out: &mut String, c: char)
    ensures
        final(out)@ == old(out)@ + escape_char(c),
{
    let ghost start = out@;
    if c == '&' {
        push_char(out, '&');
        push_char(out, 'a');
        push_char(out, 'm');
        push_char(out, 'p');
        push_char(out, ';');
    } else if c == '<' {
        push_char(out, '&');
        push_char(out, 'l');
        push_char(out, 't');
        push_char(out, ';');
    } else if c == '>' {
        push_char(out, '&');
        push_char(out, 'g');
        push_char(out, 't');
        push_char(out, ';');
    } else if c == '"' {
        push_char(out, '&');
        push_char(out, 'q');
        push_char(out, 'u');
        push_char(out, 'o');
        push_char(out, 't');
        push_char(out, ';');
    } else if c == '\'' {
        push_char(out, '&');
        push_char(out, 'a');
        push_char(out, 'p');
        push_char(out, 'o');
        push_char(out, 's');
        push_char(out, ';');
    } else {
        push_char(out, c);
    }
    assert(out@ =~= start + escape_char(c));
}

fn push_escaped(out: &mut String, s: &str)
    ensures
        final(out)@ == old(out)@ + xml_escaped(s@),
{
    let ghost start = out@;
    let n = s.unicode_len();
    let mut i: usize = 0;
    assert(s@.take(0) =~= Seq::<char>::empty());
    while i < n
        invariant
            n == s@.len(),
            i <= n,
            out@ == start + xml_escaped(s@.take(i as int)),
        decreases n - i,
    {
        let c = s.get_char(i);
        push_escaped_char(out, c);
        proof {
            assert(s@.take(i + 1) =~= s@.take(i as int).push(c));
            lemma_escaped_push(s@.take(i as int), c);
            assert(out@ =~= start + xml_escaped(s@.take(i + 1)));
        }
        i = i + 1;
    }
    assert(s@.take(n as int) =~= s@);
}

/// Escapes XML special characters, one character at a time.
pub fn xml_escape_scalar(s: &str) -> (r: String)
    ensures
        r@ == xml_escaped(s@),
{
    let mut r = String::new();
    push_escaped(&mut r, s);
    assert(r@ =~= xml_escaped(s@));
    r
}

/// Escapes XML special characters: the same escape as
/// [`xml_escape_scalar`], for texts of any length.
pub fn xml_escape_fast(s: &str) -> (r: String)
    ensures
        r@ == xml_escaped(s@),
{
    xml_escape_scalar(s)
}

/// The toast document up to the title.
pub const TOAST_HEAD: &'static str = "<?xml version=\"1.0\" encoding=\"utf-8\"?>\n<toast duration=\"short\">\n    <visual>\n        <binding template=\"ToastGeneric\">\n            <text>";

/// The toast document between title and message.
pub const TOAST_MIDDLE: &'static str = "</text>\n            <text>";

/// The toast document after the message.
pub const TOAST_TAIL: &'static str = "</text>\n        </binding>\n    </visual>\n    <audio silent=\"true\"/>\n</toast>";

/// The toast document: a short, silent generic toast with the escaped
/// title and message as its two texts.
pub open spec fn toast_document(title: Seq<char>, message: Seq<char>) -> Seq<char> {
    TOAST_HEAD@ + xml_escaped(title) + TOAST_MIDDLE@ + xml_escaped(message) + TOAST_TAIL@
}

/// Builds the toast notification document for a title and a message.
pub fn toast_xml(title: &str, message: &str) -> (r: String)
    ensures
        r@ == toast_document(title@, message@),
{
    let mut r = String::new();
    push_str(&mut r, TOAST_HEAD);
    push_escaped(&mut r, title);
    push_str(&mut r, TOAST_MIDDLE);
    push_escaped(&mut r, message);
    push_str(&mut r, TOAST_TAIL);
    assert(r@ =~= toast_document(title@, message@));
    r
}

/// The UTF-16 code units of one character: one unit below U+10000, else
/// a surrogate pair.
pub open spec fn utf16_units(c: char) -> Seq<u16> {
    let v = c as u32 as int;
    if v < 0x10000 {
        seq![v as u16]
    } else {
        seq![(0xD800 + (v - 0x10000) / 0x400) as u16, (0xDC00 + (v - 0x10000) % 0x400) as u16]
    }
}

/// The UTF-16 encoding of a text.
pub open spec fn utf16_encoded(s: Seq<char>) -> Seq<u16>
    decreases s.len(),
{
    if s.len() == 0 {
        Seq::empty()
    } else {
        utf16_encoded(s.drop_last()) + utf16_units(s.last())
    }
}

/// The UTF-16 encoding of a text followed by the terminating zero that
/// window APIs expect.
pub open spec fn wide_text(s: Seq<char>) -> Seq<u16> {
    utf16_encoded(s).push(0)
}

/// A wide text ends with the terminating zero and holds at least one
/// unit per character besides it.
pub proof fn lemma_wide_text_ends_with_zero(s: Seq<char>)
    ensures
        wide_text(s).len() >= 1,
        wide_text(s).last() == 0,
        wide_text(s).len() >= s.len() + 1,
    decreases s.len(),
{
    if s.len() > 0 {
        lemma_wide_text_ends_with_zero(s.drop_last());
    }
}

proof fn lemma_utf16_push(s: Seq<char>, c: char)
    ensures
        utf16_encoded(s.push(c)) == utf16_encoded(s) + utf16_units(c),
{
    assert(s.push(c).drop_last() =~= s);
}

proof fn lemma_utf16_length(s: Seq<char>)
    ensures
        utf16_encoded(s).len() <= 2 * s.len(),
    decreases s.len(),
{
    if s.len() > 0 {
        lemma_utf16_length(s.drop_last());
    }
}

/// A buffer of UTF-16 code units that text can be encoded into.
pub trait WideSink {
    /// The units held, in order.
    spec fn units(&self) -> Seq<u16>;

    /// Removes every unit.
    fn clear_units(&mut self)
        ensures
            final(self).units() == Seq::<u16>::empty(),
    ;

    /// Appends one unit.
    fn push_unit(&mut self, unit: u16)
        requires
            old(self).units().len() < 0x100_0000_0000_0000,
        ensures
            final(self).units() == old(self).units().push(unit),
    ;

    /// The units held, in order.
    fn unit_slice(&self) -> (r: &[u16])
        ensures
            r@ == self.units(),
    ;
}

impl WideSink for TooltipBuffer {
    open spec fn units(&self) -> Seq<u16> {
        self@
    }

    fn clear_units(&mut self) {
        self.clear();
    }

    fn push_unit(&mut self, unit: u16) {
        self.push(unit);
    }

    fn unit_slice(&self) -> (r: &[u16]) {
        self.as_slice()
    }
}

impl WideSink for TitleBuffer {
    open spec fn units(&self) -> Seq<u16> {
        self@
    }

    fn clear_units(&mut self) {
        self.clear();
    }

    fn push_unit(&mut self, unit: u16) {
        self.push(unit);
    }

    fn unit_slice(&self) -> (r: &[u16]) {
        self.as_slice()
    }
}

impl WideSink for MessageBuffer {
    open spec fn units(&self) -> Seq<u16> {
        self@
    }

    fn clear_units(&mut self) {
        self.clear();
    }

    fn push_unit(&mut self, unit: u16) {
        self.push(unit);
    }

    fn unit_slice(&self) -> (r: &[u16]) {
        self.as_slice()
    }
}

/// Replaces the contents of `buf` with the wide text of `text`.
pub fn encode_wide<B: WideSink>(buf: &mut B, text: &str)
    requires
        text@.len() < 0x10_0000_0000_0000,
    ensures
        final(buf).units() == wide_text(text@),
{
    buf.clear_units();
    let n = text.unicode_len();
    let mut i: usize = 0;
    assert(text@.take(0) =~= Seq::<char>::empty());
    while i < n
        invariant
            n == text@.len(),
            n < 0x10_0000_0000_0000,
            i <= n,
            buf.units() == utf16_encoded(text@.take(i as int)),
        decreases n - i,
    {
        let c = text.get_char(i);
        proof {
            lemma_utf16_length(text@.take(i as int));
        }
        let v = c as u32;
        if v < 0x10000 {
            buf.push_unit(v as u16);
        } else {
            let w = v - 0x10000;
            buf.push_unit((0xD800 + w / 0x400) as u16);
            buf.push_unit((0xDC00 + w % 0x400) as u16);
        }
        proof {
            assert(text@.take(i + 1) =~= text@.take(i as int).push(c));
            lemma_utf16_push(text@.take(i as int), c);
            assert(buf.units() =~= utf16_encoded(text@.take(i + 1)));
        }
        i = i + 1;
    }
    proof {
        assert(text@.take(n as int) =~= text@);
        lemma_utf16_length(text@);
    }
    buf.push_unit(0);
}

/// Cached UTF-16 encodings of the texts handed to the tray: the tooltip,
/// the notification title and the notification message.
pub struct Utf16Cache {
    tooltip: TooltipBuffer,
    title: TitleBuffer,
    message: MessageBuffer,
}

impl Utf16Cache {
    /// Empty buffers.
    pub fn new() -> (r: Utf16Cache)
        ensures
            r.tooltip_units() == Seq::<u16>::empty(),
            r.title_units() == Seq::<u16>::empty(),
            r.message_units() == Seq::<u16>::empty(),
    {
        Utf16Cache { tooltip: TooltipBuffer::new(), title: TitleBuffer::new(), message: MessageBuffer::new() }
    }

    /// The cached tooltip units.
    pub closed spec fn tooltip_units(&self) -> Seq<u16> {
        self.tooltip@
    }

    /// The cached title units.
    pub closed spec fn title_units(&self) -> Seq<u16> {
        self.title@
    }

    /// The cached message units.
    pub closed spec fn message_units(&self) -> Seq<u16> {
        self.message@
    }

    /// Encodes the tooltip text, terminated by a zero.
    pub fn encode_tooltip(&mut self, text: &str) -> (r: &[u16])
        requires
            text@.len() < 0x10_0000_0000_0000,
        ensures
            r@ == wide_text(text@),
            final(self).tooltip_units() == wide_text(text@),
            final(self).title_units() == old(self).title_units(),
            final(self).message_units() == old(self).message_units(),
    {
        encode_wide(&mut self.tooltip, text);
        self.tooltip.as_slice()
    }

    /// Encodes the notification title, terminated by a zero.
    pub fn encode_title(&mut self, text: &str) -> (r: &[u16])
        requires
            text@.len() < 0x10_0000_0000_0000,
        ensures
            r@ == wide_text(text@),
            final(self).title_units() == wide_text(text@),
            final(self).tooltip_units() == old(self).tooltip_units(),
            final(self).message_units() == old(self).message_units(),
    {
        encode_wide(&mut self.title, text);
        self.title.as_slice()
    }

    /// Encodes the notification message, terminated by a zero.
    pub fn encode_message(&mut self, text: &str) -> (r: &[u16])
        requires
            text@.len() < 0x10_0000_0000_0000,
        ensures
            r@ == wide_text(text@),
            final(self).message_units() == wide_text(text@),
            final(self).tooltip_units() == old(self).tooltip_units(),
            final(self).title_units() == old(self).title_units(),
    {
        encode_wide(&mut self.message, text);
        self.message.as_slice()
    }
}

/// Identifier of the menu item that pauses or resumes.
pub const MENU_TOGGLE_PAUSE: u16 = 1010;

/// Identifier of the menu item that shows the main window.
pub const MENU_SHOW_WINDOW: u16 = 1020;

/// Identifier of the menu item that shows the about dialog.
pub const MENU_ABOUT: u16 = 1030;

/// Identifier of the menu item that exits the program.
pub const MENU_EXIT: u16 = 1000;

/// What a tray menu command asks for.
#[derive(Debug, Clone, Copy, PartialEq, Eq, Structural)]
pub enum TrayCommand {
    /// Toggle the paused state and announce the new state.
    TogglePause,
    /// Show the main window.
    ShowWindow,
    /// Show the main window with the about dialog.
    ShowAbout,
    /// Exit the program.
    Exit,
    /// Not a command of the tray menu.
    Ignore,
}

/// The command whose identifier is `id`.
pub open spec fn command_of(id: u16) -> TrayCommand {
    if id == MENU_TOGGLE_PAUSE {
        TrayCommand::TogglePause
    } else if id == MENU_SHOW_WINDOW {
        TrayCommand::ShowWindow
    } else if id == MENU_ABOUT {
        TrayCommand::ShowAbout
    } else if id == MENU_EXIT {
        TrayCommand::Exit
    } else {
        TrayCommand::Ignore
    }
}

/// The command of a `WM_COMMAND` message: its identifier is the low 16
/// bits of the message's first parameter.
pub fn tray_command(wparam: usize) -> (r: TrayCommand)
    ensures
        r == command_of((wparam % 0x10000) as u16),
{
    let id = (wparam % 0x10000) as u16;
    if id == MENU_TOGGLE_PAUSE {
        TrayCommand::TogglePause
    } else if id == MENU_SHOW_WINDOW {
        TrayCommand::ShowWindow
    } else if id == MENU_ABOUT {
        TrayCommand::ShowAbout
    } else if id == MENU_EXIT {
        TrayCommand::Exit
    } else {
        TrayCommand::Ignore
    }
}

/// Mouse message of a right button release on the tray icon.
pub const WM_RBUTTONUP: u32 = 0x0205;

/// Mouse message of a left button double click on the tray icon.
pub const WM_LBUTTONDBLCLK: u32 = 0x0203;

/// What a mouse event on the tray icon asks for.
#[derive(Debug, Clone, Copy, PartialEq, Eq, Structural)]
pub enum TrayClick {
    /// Open the context menu.
    ContextMenu,
    /// Show and restore the main window.
    RestoreWindow,
    /// Nothing.
    Ignore,
}

/// The action of a tray icon message whose mouse message is `lparam`.
pub fn tray_click(lparam: u32) -> (r: TrayClick)
    ensures
        r == if lparam == WM_RBUTTONUP {
            TrayClick::ContextMenu
        } else if lparam == WM_LBUTTONDBLCLK {
            TrayClick::RestoreWindow
        } else {
            TrayClick::Ignore
        },
{
    if lparam == WM_RBUTTONUP {
        TrayClick::ContextMenu
    } else if lparam == WM_LBUTTONDBLCLK {
        TrayClick::RestoreWindow
    } else {
        TrayClick::Ignore
    }
}

/// The label of the pause item of the tray menu: resume while paused,
/// pause while running.
pub fn pause_menu_label(t: &CachedTranslations, paused: bool) -> (r: &'static str)
    ensures
        r@ == if paused {
            raw_text(t@, RawKey::TrayActivate)
        } else {
            raw_text(t@, RawKey::TrayPause)
        },
{
    if paused {
        t.tray_activate()
    } else {
        t.tray_pause()
    }
}

/// The notification after toggling the paused state: activated when it
/// was paused before, paused otherwise.
pub fn toggle_notice(t: &CachedTranslations, was_paused: bool) -> (r: &'static str)
    ensures
        r@ == if was_paused {
            raw_text(t@, RawKey::TrayNotificationActivated)
        } else {
            raw_text(t@, RawKey::TrayNotificationPaused)
        },
{
    if was_paused {
        t.tray_notification_activated()
    } else {
        t.tray_notification_paused()
    }
}

/// The pacing of the tray's message loop: how long to sleep when idle and
/// when to look for a change of language.
pub struct LoopPacer {
    /// Idle iterations since the last message or event.
    pub idle_count: u32,
    /// Iterations since the last language check.
    pub check_counter: u32,
}

/// Milliseconds to sleep after `idle` idle iterations: 1 for the first
/// ten, 5 up to fifty, 10 after that.
pub open spec fn idle_sleep_ms(idle: u32) -> u32 {
    if idle < 10 {
        1
    } else if idle < 50 {
        5
    } else {
        10
    }
}

impl LoopPacer {
    /// A pacer at the start of the loop.
    pub fn new() -> (r: LoopPacer)
        ensures
            r.idle_count == 0,
            r.check_counter == 0,
    {
        LoopPacer { idle_count: 0, check_counter: 0 }
    }

    /// Starts an iteration; tells whether the language is to be checked,
    /// which happens every tenth iteration.
    pub fn begin_iteration(&mut self) -> (check_language: bool)
        requires
            old(self).check_counter < u32::MAX,
        ensures
            check_language == (old(self).check_counter + 1 >= 10),
            final(self).check_counter == if check_language {
                0
            } else {
                (old(self).check_counter + 1) as u32
            },
            final(self).check_counter < 10,
            final(self).idle_count == old(self).idle_count,
    {
        self.check_counter = self.check_counter + 1;
        if self.check_counter >= 10 {
            self.check_counter = 0;
            true
        } else {
            false
        }
    }

    /// Records that a message or event arrived.
    pub fn on_activity(&mut self)
        ensures
            final(self).idle_count == 0,
            final(self).check_counter == old(self).check_counter,
    {
        self.idle_count = 0;
    }

    /// Records an idle iteration and returns how long to sleep. The count
    /// wraps around after `u32::MAX` idle iterations.
    pub fn on_idle(&mut self) -> (sleep_ms: u32)
        ensures
            final(self).idle_count == old(self).idle_count.wrapping_add(1),
            sleep_ms == idle_sleep_ms(final(self).idle_count),
            final(self).check_counter == old(self).check_counter,
    {
        self.idle_count = self.idle_count.wrapping_add(1);
        if self.idle_count < 10 {
            1
        } else if self.idle_count < 50 {
            5
        } else {
            10
        }
    }
}

/// The sleep grows with idleness and never exceeds ten milliseconds.
pub proof fn lemma_idle_sleep_monotone(a: u32, b: u32)
    requires
        a <= b,
    ensures
        idle_sleep_ms(a) <= idle_sleep_ms(b),
        1 <= idle_sleep_ms(b) <= 10,
{
}

} // verus!
