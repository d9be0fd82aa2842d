//! The platform-independent half of a content view something else paints
//! into: the modifiers, key and mouse reports a responder receives, the
//! text-input client's marked-text bookkeeping, the display link it keeps,
//! and the geometry of the pixel surface a renderer writes.
//!
//! The layer such a view shows is not opaque: an opaque layer filling the
//! content view paints the glass out entirely.

use vstd::prelude::*;
use vstd::utf8::encode_utf8;
use vstd::utf8::encode_scalar;

verus! {

/// `NSEventModifierFlagShift`.
pub const FLAG_SHIFT: u64 = 131072;
/// `NSEventModifierFlagControl`.
pub const FLAG_CONTROL: u64 = 262144;
/// `NSEventModifierFlagOption`.
pub const FLAG_OPTION: u64 = 524288;
/// `NSEventModifierFlagCommand`.
pub const FLAG_COMMAND: u64 = 1048576;
/// `NSEventModifierFlagFunction`.
pub const FLAG_FUNCTION: u64 = 8388608;

/// The modifier keys held during an event, as the responder reads them.
#[derive(Clone, Copy, PartialEq, Eq, Debug, Default, Structural)]
pub struct Modifiers {
    /// Either Shift key.
    pub shift: bool,
    /// Either Control key.
    pub control: bool,
    /// Either Option key.
    pub option: bool,
    /// Either Command key.
    pub command: bool,
    /// The `fn` key, or a key on a keyboard's function row.
    pub function: bool,
}

/// Whether the bits of `flag` are all set in `flags`.
pub open spec fn has_flag(flags: u64, flag: u64) -> bool {
    flags & flag == flag
}

impl Modifiers {
    /// The modifiers an event's modifier flags report.
    pub fn of(flags: u64) -> (m: Modifiers)
        ensures
            m.shift == has_flag(flags, FLAG_SHIFT),
            m.control == has_flag(flags, FLAG_CONTROL),
            m.option == has_flag(flags, FLAG_OPTION),
            m.command == has_flag(flags, FLAG_COMMAND),
            m.function == has_flag(flags, FLAG_FUNCTION),
    {
        Modifiers {
            shift: flags & FLAG_SHIFT == FLAG_SHIFT,
            control: flags & FLAG_CONTROL == FLAG_CONTROL,
            option: flags & FLAG_OPTION == FLAG_OPTION,
            command: flags & FLAG_COMMAND == FLAG_COMMAND,
            function: flags & FLAG_FUNCTION == FLAG_FUNCTION,
        }
    }
}

/// A key press as AppKit delivered it, before interpretation.
#[derive(Clone, Debug)]
pub struct KeyPress {
    /// The hardware key code, `NSEvent.keyCode`.
    pub key_code: u16,
    /// `NSEvent.characters`: what the key produced under its modifiers.
    pub characters: String,
    /// `NSEvent.charactersIgnoringModifiers`: the key's own identity.
    pub unmodified: String,
    /// The modifiers held.
    pub modifiers: Modifiers,
    /// A key-repeat rather than a fresh press.
    pub repeat: bool,
}

/// What a responder did with a key press.
#[derive(Clone, Copy, PartialEq, Eq, Debug, Structural)]
pub enum Handled {
    /// The responder consumed it; nothing else sees it.
    Consumed,
    /// Hand it to the input manager, which answers with text or a command.
    Interpret,
}

/// Whether a key press goes on to the input manager, given the responder's
/// answer (`None` when no responder is installed).
pub fn interprets(answer: Option<Handled>) -> (interpret: bool)
    ensures
        interpret == (answer != Some(Handled::Consumed)),
{
    match answer {
        Some(Handled::Consumed) => false,
        _ => true,
    }
}

/// Which mouse button an event is about.
#[derive(Clone, Copy, PartialEq, Eq, Debug, Structural)]
pub enum Button {
    /// The primary button.
    Left,
    /// The secondary button.
    Right,
    /// The wheel or a third button.
    Middle,
    /// `NSEvent.buttonNumber` beyond the three.
    Other(u8),
}

/// The button an `NSEvent.buttonNumber` reports; a number that does not fit
/// a byte is reported as 255.
pub open spec fn button_of(number: int) -> Button {
    if number == 0 {
        Button::Left
    } else if number == 1 {
        Button::Right
    } else if number == 2 {
        Button::Middle
    } else if 0 <= number <= 255 {
        Button::Other(number as u8)
    } else {
        Button::Other(255)
    }
}

impl Button {
    /// The button an `NSEvent.buttonNumber` reports.
    pub fn from_number(number: isize) -> (button: Button)
        ensures
            button == button_of(number as int),
    {
        if number == 0 {
            Button::Left
        } else if number == 1 {
            Button::Right
        } else if number == 2 {
            Button::Middle
        } else if 0 <= number && number <= 255 {
            Button::Other(number as u8)
        } else {
            Button::Other(255)
        }
    }
}

/// What a mouse event reports.
#[derive(Clone, Copy, PartialEq, Eq, Debug, Structural)]
pub enum MouseKind {
    /// A button went down.
    Down,
    /// A button came up.
    Up,
    /// The pointer moved with no button held.
    Moved,
    /// The pointer moved with a button held.
    Dragged,
    /// The pointer entered the view.
    Entered,
    /// The pointer left the view.
    Exited,
}

/// The click count a mouse event reports: the event's own count for a press
/// or release (1 when it does not fit a byte), zero for motion.
pub open spec fn clicks_of(kind: MouseKind, click_count: int) -> u8 {
    match kind {
        MouseKind::Down | MouseKind::Up => if 0 <= click_count <= 255 {
            click_count as u8
        } else {
            1
        },
        _ => 0,
    }
}

/// The click count a mouse event of `kind` reports, from
/// `NSEvent.clickCount`.
pub fn clicks(kind: MouseKind, click_count: isize) -> (n: u8)
    ensures
        n == clicks_of(kind, click_count as int),
{
    match kind {
        MouseKind::Down | MouseKind::Up => if 0 <= click_count && click_count <= 255 {
            click_count as u8
        } else {
            1
        },
        _ => 0,
    }
}

/// The button a mouse event of `kind` reports: the event's own button for a
/// press or release, `Left` for motion, entering and leaving.
pub open spec fn reported_button(kind: MouseKind, button_number: int) -> Button {
    match kind {
        MouseKind::Down | MouseKind::Up => button_of(button_number),
        _ => Button::Left,
    }
}

/// What a mouse event of `kind` reports besides its position: the button,
/// the click count and the modifiers, from `NSEvent.buttonNumber`,
/// `NSEvent.clickCount` and `NSEvent.modifierFlags`.
pub fn mouse_report(kind: MouseKind, button_number: isize, click_count: isize, flags: u64) -> (r: (
    Button,
    u8,
    Modifiers,
))
    ensures
        r.0 == reported_button(kind, button_number as int),
        r.1 == clicks_of(kind, click_count as int),
        r.2.shift == has_flag(flags, FLAG_SHIFT),
        r.2.control == has_flag(flags, FLAG_CONTROL),
        r.2.option == has_flag(flags, FLAG_OPTION),
        r.2.command == has_flag(flags, FLAG_COMMAND),
        r.2.function == has_flag(flags, FLAG_FUNCTION),
{
    let button = match kind {
        MouseKind::Down | MouseKind::Up => Button::from_number(button_number),
        _ => Button::Left,
    };
    (button, clicks(kind, click_count), Modifiers::of(flags))
}

/// A press or release reports its click count unchanged whenever it fits a
/// byte, and 1 only when it does not; motion, entering and leaving report
/// no clicks.
pub proof fn law_press_reports_its_click_count(kind: MouseKind, n: int)
    ensures
        (kind == MouseKind::Down || kind == MouseKind::Up) && 0 <= n <= 255 ==> clicks_of(kind, n) as int == n,
        (kind == MouseKind::Down || kind == MouseKind::Up) && !(0 <= n <= 255) ==> clicks_of(kind, n) == 1,
        !(kind == MouseKind::Down || kind == MouseKind::Up) ==> clicks_of(kind, n) == 0,
{
}

/// Whether the view holds keyboard focus.
#[derive(Clone, Copy, PartialEq, Eq, Debug, Structural)]
pub enum Focus {
    /// The view became the key window's first responder.
    Gained,
    /// The view stopped being it.
    Lost,
}

/// The location this view reports for a range that holds nothing: the
/// largest `NSUInteger`.
pub const NOT_FOUND: usize = usize::MAX;

/// A range of UTF-16 code units, as `NSRange` carries it.
#[derive(Clone, Copy, PartialEq, Eq, Debug, Structural)]
pub struct TextRange {
    /// The first unit, or [`NOT_FOUND`].
    pub location: usize,
    /// How many units.
    pub length: usize,
}

/// The number of UTF-16 code units a character takes.
pub open spec fn utf16_units(c: char) -> nat {
    if (c as u32) >= 0x10000 {
        2
    } else {
        1
    }
}

/// A character takes two UTF-16 code units (a surrogate pair) exactly when
/// it takes four UTF-8 bytes, that is, when it lies outside the Basic
/// Multilingual Plane, and one otherwise.
pub proof fn law_utf16_pair_exactly_beyond_the_basic_plane(c: char)
    ensures
        utf16_units(c) == 2 <==> encode_scalar(c as u32).len() == 4,
        utf16_units(c) == 1 <==> encode_scalar(c as u32).len() < 4,
{
}

/// The number of UTF-16 code units a string takes.
pub open spec fn utf16_len(s: Seq<char>) -> nat
    decreases s.len(),
{
    if s.len() == 0 {
        0
    } else {
        utf16_units(s[0]) + utf16_len(s.drop_first())
    }
}

/// Appending a character adds its units.
pub proof fn lemma_utf16_len_push(s: Seq<char>, c: char)
    ensures
        utf16_len(s.push(c)) == utf16_len(s) + utf16_units(c),
    decreases s.len(),
{
    if s.len() > 0 {
        assert(s.push(c).drop_first() =~= s.drop_first().push(c));
        assert(s.push(c)[0] == s[0]);
        lemma_utf16_len_push(s.drop_first(), c);
    } else {
        assert(s.push(c).drop_first() =~= Seq::<char>::empty());
        assert(s.push(c)[0] == c);
        assert(utf16_len(Seq::<char>::empty()) == 0);
    }
}

/// A string takes no more UTF-16 code units than UTF-8 bytes.
pub proof fn lemma_utf16_len_bounded(s: Seq<char>)
    ensures
        utf16_len(s) <= encode_utf8(s).len(),
    decreases s.len(),
{
    if s.len() > 0 {
        lemma_utf16_len_bounded(s.drop_first());
        let c = s[0];
        assert(encode_scalar(c as u32).len() >= utf16_units(c));
    }
}

/// The number of UTF-16 code units `s` takes.
pub fn utf16_count(s: &str) -> (n: usize)
    ensures
        n == utf16_len(s@),
{
    let bytes = s.as_bytes().len();
    proof {
        lemma_utf16_len_bounded(s@);
    }
    let chars = s.unicode_len();
    let mut n: usize = 0;
    let mut i: usize = 0;
    while i < chars
        invariant
            chars == s@.len(),
            i <= chars,
            n == utf16_len(s@.take(i as int)),
            utf16_len(s@) <= bytes,
            bytes <= usize::MAX,
        decreases chars - i,
    {
        let c = s.get_char(i);
        proof {
            assert(s@.take(i + 1) =~= s@.take(i as int).push(c));
            lemma_utf16_len_push(s@.take(i as int), c);
            lemma_utf16_len_prefix(s@, i + 1);
        }
        if (c as u32) >= 0x10000 {
            n = n + 2;
        } else {
            n = n + 1;
        }
        i = i + 1;
    }
    assert(s@.take(chars as int) =~= s@);
    n
}

/// A prefix takes no more UTF-16 code units than the whole.
pub proof fn lemma_utf16_len_prefix(s: Seq<char>, k: int)
    requires
        0 <= k <= s.len(),
    ensures
        utf16_len(s.take(k)) <= utf16_len(s),
    decreases s.len() - k,
{
    if k < s.len() {
        lemma_utf16_len_prefix(s, k + 1);
        assert(s.take(k + 1) =~= s.take(k).push(s[k]));
        lemma_utf16_len_push(s.take(k), s[k]);
    } else {
        assert(s.take(k) =~= s);
    }
}

/// A string takes no UTF-16 code units exactly when it is empty.
pub proof fn lemma_utf16_len_zero(s: Seq<char>)
    ensures
        utf16_len(s) == 0 <==> s.len() == 0,
{
    if s.len() > 0 {
        assert(utf16_len(s) >= utf16_units(s[0]));
    }
}

/// The text an input method is composing, which the view shows at the
/// cursor until it is committed or abandoned.
#[derive(Clone, Debug)]
pub struct MarkedText {
    text: String,
}

impl View for MarkedText {
    type V = Seq<char>;

    closed spec fn view(&self) -> Seq<char> {
        self.text@
    }
}

/// The range the marked text occupies: nothing (`NOT_FOUND`, 0) when there
/// is none, else all of it, counted in UTF-16 code units.
pub open spec fn marked_range_of(text: Seq<char>) -> TextRange {
    if utf16_len(text) == 0 {
        TextRange { location: NOT_FOUND, length: 0 }
    } else {
        TextRange { location: 0, length: utf16_len(text) as usize }
    }
}

/// `markedRange` and `hasMarkedText` agree: the range holds nothing
/// (`NOT_FOUND`, 0) exactly when there is no marked text, and otherwise
/// starts at 0 and spans all of it.
pub proof fn law_marked_range_agrees_with_has_marked_text(text: Seq<char>)
    requires
        utf16_len(text) <= usize::MAX,
    ensures
        marked_range_of(text).length == 0 <==> text.len() == 0,
        marked_range_of(text).location == NOT_FOUND <==> text.len() == 0,
        text.len() > 0 ==> marked_range_of(text).location == 0,
{
    lemma_utf16_len_zero(text);
}

impl MarkedText {
    /// No marked text.
    pub fn new() -> (m: MarkedText)
        ensures
            m@ == Seq::<char>::empty(),
    {
        MarkedText { text: String::new() }
    }

    /// The text being composed.
    pub fn text(&self) -> (text: &str)
        ensures
            text@ == self@,
    {
        self.text.as_str()
    }

    /// `setMarkedText:`: the input method's composition so far.
    pub fn set(&mut self, text: String)
        ensures
            final(self)@ == text@,
    {
        self.text = text;
    }

    /// `insertText:` and `unmarkText`: the composition ends.
    pub fn clear(&mut self)
        ensures
            final(self)@ == Seq::<char>::empty(),
    {
        self.text = String::new();
    }

    /// `hasMarkedText`.
    pub fn has_marked_text(&self) -> (has: bool)
        ensures
            has == (self@.len() > 0),
    {
        let n = self.text.as_str().unicode_len();
        n > 0
    }

    /// `markedRange`.
    pub fn marked_range(&self) -> (range: TextRange)
        ensures
            range == marked_range_of(self@),
    {
        let n = utf16_count(self.text.as_str());
        if n == 0 {
            TextRange { location: NOT_FOUND, length: 0 }
        } else {
            TextRange { location: 0, length: n }
        }
    }
}

/// `selectedRange`: the view keeps no selection.
pub fn selected_range() -> (range: TextRange)
    ensures
        range == (TextRange { location: NOT_FOUND, length: 0 }),
{
    TextRange { location: NOT_FOUND, length: 0 }
}

/// `characterIndexForPoint:`: the view maps no point to a character.
pub fn character_index_for_point() -> (index: usize)
    ensures
        index == NOT_FOUND,
{
    NOT_FOUND
}

/// The display link a view keeps, if one is running. `L` is the host's link
/// handle.
#[derive(Debug)]
pub struct DisplayLinkSlot<L> {
    link: Option<L>,
}

impl<L> View for DisplayLinkSlot<L> {
    type V = Option<L>;

    closed spec fn view(&self) -> Option<L> {
        self.link
    }
}

impl<L> DisplayLinkSlot<L> {
    /// No link running.
    pub fn new() -> (slot: DisplayLinkSlot<L>)
        ensures
            slot@ is None,
    {
        DisplayLinkSlot { link: None }
    }

    /// Whether a link is running.
    pub fn is_running(&self) -> (running: bool)
        ensures
            running == self@ is Some,
    {
        self.link.is_some()
    }

    /// Keep `link` as the running link. Returns the one it replaces, which
    /// the host invalidates: starting a link stops any earlier one.
    pub fn start(&mut self, link: L) -> (replaced: Option<L>)
        ensures
            replaced == old(self)@,
            final(self)@ == Some(link),
    {
        let replaced = self.link.take();
        self.link = Some(link);
        replaced
    }

    /// Stop the running link, if any. Returns it, for the host to invalidate.
    pub fn stop(&mut self) -> (stopped: Option<L>)
        ensures
            stopped == old(self)@,
            final(self)@ is None,
    {
        self.link.take()
    }
}

/// `'BGRA'`, the pixel format of a CPU surface: little-endian `0xAARRGGBB`
/// words, premultiplied.
pub const BGRA: u32 = 0x4247_5241;

/// The bytes of one BGRA pixel.
pub const BYTES_PER_PIXEL: usize = 4;

/// The shape of a BGRA pixel surface: its size in pixels and the row stride
/// the kernel chose, which may round the width up.
#[derive(Clone, Copy, PartialEq, Eq, Debug, Structural)]
pub struct SurfaceGeometry {
    width: usize,
    height: usize,
    stride: usize,
}

/// The abstract shape of a surface: width, height and stride in pixels.
pub open spec fn geometry_of(width: usize, height: usize, bytes_per_row: int) -> Option<(usize, usize, usize)> {
    if width == 0 || height == 0 || bytes_per_row < 0 {
        None
    } else {
        Some((width, height, (bytes_per_row / 4) as usize))
    }
}

impl View for SurfaceGeometry {
    type V = (usize, usize, usize);

    closed spec fn view(&self) -> (usize, usize, usize) {
        (self.width, self.height, self.stride)
    }
}

impl SurfaceGeometry {
    /// Whether a surface of `width` by `height` pixels is asked for at all:
    /// a zero side is refused before the kernel is.
    pub fn accepts(width: usize, height: usize) -> (accepted: bool)
        ensures
            accepted == (width != 0 && height != 0),
    {
        width != 0 && height != 0
    }

    /// The shape of a surface of `width` by `height` pixels whose rows are
    /// `bytes_per_row` bytes apart; `None` for a zero side, or a row length
    /// the kernel reports as negative.
    pub fn from_parts(width: usize, height: usize, bytes_per_row: isize) -> (geometry: Option<SurfaceGeometry>)
        ensures
            match geometry {
                Some(g) => geometry_of(width, height, bytes_per_row as int) == Some(g@),
                None => geometry_of(width, height, bytes_per_row as int) is None,
            },
    {
        if width == 0 || height == 0 || bytes_per_row < 0 {
            return None;
        }
        let row: usize = bytes_per_row as usize;
        Some(SurfaceGeometry { width, height, stride: row / BYTES_PER_PIXEL })
    }

    /// Width and height in pixels.
    pub fn size(&self) -> (size: (usize, usize))
        ensures
            size == (self@.0, self@.1),
    {
        (self.width, self.height)
    }

    /// Pixels from one row to the next in the slice a write hands over.
    pub fn stride(&self) -> (stride: usize)
        ensures
            stride == self@.2,
    {
        self.stride
    }

    /// The number of 32-bit words a locked surface exposes: `stride` words a
    /// row, `height` rows.
    pub fn words(&self) -> (words: usize)
        requires
            self@.2 * self@.1 <= usize::MAX,
        ensures
            words == self@.2 * self@.1,
    {
        self.stride * self.height
    }
}

} // verus!
