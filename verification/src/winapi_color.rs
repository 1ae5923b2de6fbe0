//! Legacy console backend: color changes are expressed as edits of the
//! console's 16-bit attribute word.
//!
//! The attribute word packs a foreground field (three color bits plus an
//! intensity bit, mask `0x000f`) and a background field (the same four
//! bits shifted up, mask `0x00f0`). Writing one half must leave the other
//! half untouched, and the word the console showed before the first
//! change is captured once, as the baseline that `reset` restores.
//!
//! This module is pure: the caller reads the console's live attribute
//! word, hands it in, and writes back the word that comes out.

use vstd::prelude::*;

use crate::color_type::ColorType;
use crate::colored::Colored;

verus! {

/// Blue component bit of the foreground field.
pub const FG_BLUE: u16 = 0x0001;
/// Green component bit of the foreground field.
pub const FG_GREEN: u16 = 0x0002;
/// Red component bit of the foreground field.
pub const FG_RED: u16 = 0x0004;
/// Intensity bit of the foreground field: selects the bright variant.
pub const FG_INTENSITY: u16 = 0x0008;

/// Blue component bit of the background field.
pub const BG_BLUE: u16 = 0x0010;
/// Green component bit of the background field.
pub const BG_GREEN: u16 = 0x0020;
/// Red component bit of the background field.
pub const BG_RED: u16 = 0x0040;
/// Intensity bit of the background field: selects the bright variant.
pub const BG_INTENSITY: u16 = 0x0080;

/// All four foreground bits: blue, green, red and intensity.
pub const FG_MASK: u16 = 0x000f;
/// All four background bits: blue, green, red and intensity.
pub const BG_MASK: u16 = 0x00f0;

/// The foreground field of an attribute word: color bits plus intensity.
pub open spec fn foreground_portion(word: u16) -> u16 {
    word & FG_MASK
}

/// The background field of an attribute word: color bits plus intensity.
pub open spec fn background_portion(word: u16) -> u16 {
    word & BG_MASK
}

/// The foreground bits each color contributes to the attribute word.
///
/// `Reset` contributes the baseline word with its background field
/// stripped, so that restoring the foreground cannot disturb the live
/// background. Extended colors have no legacy-console encoding and
/// contribute nothing.
pub open spec fn foreground_bits(color: ColorType, original: u16) -> u16 {
    match color {
        ColorType::Black => 0,
        ColorType::DarkGrey => FG_INTENSITY,
        ColorType::Red => FG_INTENSITY | FG_RED,
        ColorType::DarkRed => FG_RED,
        ColorType::Green => FG_INTENSITY | FG_GREEN,
        ColorType::DarkGreen => FG_GREEN,
        ColorType::Yellow => FG_INTENSITY | FG_GREEN | FG_RED,
        ColorType::DarkYellow => FG_GREEN | FG_RED,
        ColorType::Blue => FG_INTENSITY | FG_BLUE,
        ColorType::DarkBlue => FG_BLUE,
        ColorType::Magenta => FG_INTENSITY | FG_RED | FG_BLUE,
        ColorType::DarkMagenta => FG_RED | FG_BLUE,
        ColorType::Cyan => FG_INTENSITY | FG_GREEN | FG_BLUE,
        ColorType::DarkCyan => FG_GREEN | FG_BLUE,
        ColorType::White => FG_RED | FG_GREEN | FG_BLUE,
        ColorType::Grey => FG_INTENSITY | FG_RED | FG_GREEN | FG_BLUE,
        ColorType::Reset => original & !BG_MASK,
        ColorType::Rgb { r: _, g: _, b: _ } => 0,
        ColorType::AnsiValue(_) => 0,
    }
}

/// The background bits each color contributes to the attribute word.
///
/// Note the deliberate asymmetry with the foreground table: `White` takes
/// the intensity bit here and `Grey` does not, mirroring the legacy
/// console palette.
pub open spec fn background_bits(color: ColorType, original: u16) -> u16 {
    match color {
        ColorType::Black => 0,
        ColorType::DarkGrey => BG_INTENSITY,
        ColorType::Red => BG_INTENSITY | BG_RED,
        ColorType::DarkRed => BG_RED,
        ColorType::Green => BG_INTENSITY | BG_GREEN,
        ColorType::DarkGreen => BG_GREEN,
        ColorType::Yellow => BG_INTENSITY | BG_GREEN | BG_RED,
        ColorType::DarkYellow => BG_GREEN | BG_RED,
        ColorType::Blue => BG_INTENSITY | BG_BLUE,
        ColorType::DarkBlue => BG_BLUE,
        ColorType::Magenta => BG_INTENSITY | BG_RED | BG_BLUE,
        ColorType::DarkMagenta => BG_RED | BG_BLUE,
        ColorType::Cyan => BG_INTENSITY | BG_GREEN | BG_BLUE,
        ColorType::DarkCyan => BG_GREEN | BG_BLUE,
        ColorType::White => BG_INTENSITY | BG_RED | BG_GREEN | BG_BLUE,
        ColorType::Grey => BG_RED | BG_GREEN | BG_BLUE,
        ColorType::Reset => original & !FG_MASK,
        ColorType::Rgb { r: _, g: _, b: _ } => 0,
        ColorType::AnsiValue(_) => 0,
    }
}

/// The bits a tagged color request contributes to the attribute word.
pub open spec fn colored_bits(color: Colored, original: u16) -> u16 {
    match color {
        Colored::Fg(c) => foreground_bits(c, original),
        Colored::Bg(c) => background_bits(c, original),
    }
}

/// Computes the attribute-word contribution of a color request.
///
/// `original` is the captured baseline word; only the `Reset` color reads
/// it.
pub fn color_value(color: Colored, original: u16) -> (bits: u16)
    ensures
        bits == colored_bits(color, original),
{
    match color {
        Colored::Fg(c) => match c {
            ColorType::Black => 0,
            ColorType::DarkGrey => FG_INTENSITY,
            ColorType::Red => FG_INTENSITY | FG_RED,
            ColorType::DarkRed => FG_RED,
            ColorType::Green => FG_INTENSITY | FG_GREEN,
            ColorType::DarkGreen => FG_GREEN,
            ColorType::Yellow => FG_INTENSITY | FG_GREEN | FG_RED,
            ColorType::DarkYellow => FG_GREEN | FG_RED,
            ColorType::Blue => FG_INTENSITY | FG_BLUE,
            ColorType::DarkBlue => FG_BLUE,
            ColorType::Magenta => FG_INTENSITY | FG_RED | FG_BLUE,
            ColorType::DarkMagenta => FG_RED | FG_BLUE,
            ColorType::Cyan => FG_INTENSITY | FG_GREEN | FG_BLUE,
            ColorType::DarkCyan => FG_GREEN | FG_BLUE,
            ColorType::White => FG_RED | FG_GREEN | FG_BLUE,
            ColorType::Grey => FG_INTENSITY | FG_RED | FG_GREEN | FG_BLUE,
            // Strip the background field from the baseline: restoring the
            // foreground must not reset the background as well.
            ColorType::Reset => original & !BG_MASK,
            // Not representable on a legacy console: no contribution.
            ColorType::Rgb { r: _, g: _, b: _ } => 0,
            ColorType::AnsiValue(_) => 0,
        },
        Colored::Bg(c) => match c {
            ColorType::Black => 0,
            ColorType::DarkGrey => BG_INTENSITY,
            ColorType::Red => BG_INTENSITY | BG_RED,
            ColorType::DarkRed => BG_RED,
            ColorType::Green => BG_INTENSITY | BG_GREEN,
            ColorType::DarkGreen => BG_GREEN,
            ColorType::Yellow => BG_INTENSITY | BG_GREEN | BG_RED,
            ColorType::DarkYellow => BG_GREEN | BG_RED,
            ColorType::Blue => BG_INTENSITY | BG_BLUE,
            ColorType::DarkBlue => BG_BLUE,
            ColorType::Magenta => BG_INTENSITY | BG_RED | BG_BLUE,
            ColorType::DarkMagenta => BG_RED | BG_BLUE,
            ColorType::Cyan => BG_INTENSITY | BG_GREEN | BG_BLUE,
            ColorType::DarkCyan => BG_GREEN | BG_BLUE,
            ColorType::White => BG_INTENSITY | BG_RED | BG_GREEN | BG_BLUE,
            ColorType::Grey => BG_RED | BG_GREEN | BG_BLUE,
            ColorType::Reset => original & !FG_MASK,
            ColorType::Rgb { r: _, g: _, b: _ } => 0,
            ColorType::AnsiValue(_) => 0,
        },
    }
}

/// The word a foreground change writes back: the new foreground bits,
/// with the live word's background field carried over unchanged.
pub open spec fn merge_foreground(live: u16, bits: u16) -> u16 {
    bits | (live & BG_MASK)
}

/// The word a background change writes back: the new background bits,
/// with the live word's foreground field carried over unchanged.
pub open spec fn merge_background(live: u16, bits: u16) -> u16 {
    (live & FG_MASK) | bits
}

/// The baseline after one capture step: an already-captured baseline is
/// kept, otherwise the live word becomes the baseline.
pub open spec fn capture(baseline: Option<u16>, live: u16) -> u16 {
    match baseline {
        Some(b) => b,
        None => live,
    }
}

/// Every foreground contribution of a non-`Reset` color: a three-bit
/// palette color plus an optional intensity bit.
spec fn in_foreground_field(bits: u16) -> bool {
    ||| bits == 0
    ||| bits == FG_INTENSITY
    ||| bits == (FG_INTENSITY | FG_RED)
    ||| bits == FG_RED
    ||| bits == (FG_INTENSITY | FG_GREEN)
    ||| bits == FG_GREEN
    ||| bits == (FG_INTENSITY | FG_GREEN | FG_RED)
    ||| bits == (FG_GREEN | FG_RED)
    ||| bits == (FG_INTENSITY | FG_BLUE)
    ||| bits == FG_BLUE
    ||| bits == (FG_INTENSITY | FG_RED | FG_BLUE)
    ||| bits == (FG_RED | FG_BLUE)
    ||| bits == (FG_INTENSITY | FG_GREEN | FG_BLUE)
    ||| bits == (FG_GREEN | FG_BLUE)
    ||| bits == (FG_RED | FG_GREEN | FG_BLUE)
    ||| bits == (FG_INTENSITY | FG_RED | FG_GREEN | FG_BLUE)
}

/// Every background contribution of a non-`Reset` color.
spec fn in_background_field(bits: u16) -> bool {
    ||| bits == 0
    ||| bits == BG_INTENSITY
    ||| bits == (BG_INTENSITY | BG_RED)
    ||| bits == BG_RED
    ||| bits == (BG_INTENSITY | BG_GREEN)
    ||| bits == BG_GREEN
    ||| bits == (BG_INTENSITY | BG_GREEN | BG_RED)
    ||| bits == (BG_GREEN | BG_RED)
    ||| bits == (BG_INTENSITY | BG_BLUE)
    ||| bits == BG_BLUE
    ||| bits == (BG_INTENSITY | BG_RED | BG_BLUE)
    ||| bits == (BG_RED | BG_BLUE)
    ||| bits == (BG_INTENSITY | BG_GREEN | BG_BLUE)
    ||| bits == (BG_GREEN | BG_BLUE)
    ||| bits == (BG_INTENSITY | BG_RED | BG_GREEN | BG_BLUE)
    ||| bits == (BG_RED | BG_GREEN | BG_BLUE)
}

/// Law: a foreground contribution never carries background bits, and for
/// every color but `Reset` it stays inside the foreground field.
pub proof fn lemma_foreground_bits_in_field(color: ColorType, original: u16)
    ensures
        foreground_bits(color, original) & BG_MASK == 0,
        !(color is Reset) ==> foreground_bits(color, original) & !FG_MASK == 0,
{
    let bits = foreground_bits(color, original);
    if color is Reset {
        assert((original & !0x00f0u16) & 0x00f0u16 == 0) by (bit_vector);
    } else {
        assert(in_foreground_field(bits));
        assert(bits & 0x00f0u16 == 0 && bits & !0x000fu16 == 0) by (bit_vector)
            requires
                in_foreground_field(bits),
        ;
    }
}

/// Law: a background contribution never carries foreground bits, and for
/// every color but `Reset` it stays inside the background field.
pub proof fn lemma_background_bits_in_field(color: ColorType, original: u16)
    ensures
        background_bits(color, original) & FG_MASK == 0,
        !(color is Reset) ==> background_bits(color, original) & !BG_MASK == 0,
{
    let bits = background_bits(color, original);
    if color is Reset {
        assert((original & !0x000fu16) & 0x000fu16 == 0) by (bit_vector);
    } else {
        assert(in_background_field(bits));
        assert(bits & 0x000fu16 == 0 && bits & !0x00f0u16 == 0) by (bit_vector)
            requires
                in_background_field(bits),
        ;
    }
}

/// Law: setting the foreground to one color and the background to
/// another leaves a word whose foreground field is the first color's
/// contribution and whose background field is the second's, in whichever
/// order the two changes run; and for colors other than `Reset` the two
/// orders produce bitwise identical words.
pub proof fn lemma_set_order_independent(x: ColorType, y: ColorType, original: u16, live: u16)
    ensures
        ({
            let fg = foreground_bits(x, original);
            let bg = background_bits(y, original);
            let fg_then_bg = merge_background(merge_foreground(live, fg), bg);
            let bg_then_fg = merge_foreground(merge_background(live, bg), fg);
            &&& foreground_portion(fg_then_bg) == foreground_portion(fg)
            &&& background_portion(fg_then_bg) == background_portion(bg)
            &&& foreground_portion(bg_then_fg) == foreground_portion(fg)
            &&& background_portion(bg_then_fg) == background_portion(bg)
            &&& !(x is Reset) && !(y is Reset) ==> fg_then_bg == bg_then_fg
        }),
{
    let fg = foreground_bits(x, original);
    let bg = background_bits(y, original);
    lemma_foreground_bits_in_field(x, original);
    lemma_background_bits_in_field(y, original);
    assert({
        let fg_then_bg = ((fg | (live & 0x00f0u16)) & 0x000fu16) | bg;
        let bg_then_fg = fg | ((((live & 0x000fu16) | bg)) & 0x00f0u16);
        &&& fg_then_bg & 0x000fu16 == fg & 0x000fu16
        &&& fg_then_bg & 0x00f0u16 == bg & 0x00f0u16
        &&& bg_then_fg & 0x000fu16 == fg & 0x000fu16
        &&& bg_then_fg & 0x00f0u16 == bg & 0x00f0u16
    }) by (bit_vector)
        requires
            fg & 0x00f0u16 == 0,
            bg & 0x000fu16 == 0,
    ;
    if !(x is Reset) && !(y is Reset) {
        assert(((fg | (live & 0x00f0u16)) & 0x000fu16) | bg == fg | ((((live & 0x000fu16) | bg))
            & 0x00f0u16)) by (bit_vector)
            requires
                fg & !0x000fu16 == 0,
                bg & !0x00f0u16 == 0,
        ;
    }
}

/// Law: setting the foreground to `Reset` clears only the foreground
/// field. The background field of the written word is the live word's,
/// not the baseline's, and the foreground field comes from the baseline.
pub proof fn lemma_reset_foreground_preserves_live_background(original: u16, live: u16)
    ensures
        ({
            let word = merge_foreground(live, foreground_bits(ColorType::Reset, original));
            &&& background_portion(word) == background_portion(live)
            &&& foreground_portion(word) == foreground_portion(original)
        }),
{
    assert({
        let word = (original & !0x00f0u16) | (live & 0x00f0u16);
        &&& word & 0x00f0u16 == live & 0x00f0u16
        &&& word & 0x000fu16 == original & 0x000fu16
    }) by (bit_vector);
}

/// The baseline after a run of operations, each observing the console's
/// live word at its own time.
pub open spec fn captured_after(baseline: Option<u16>, lives: Seq<u16>) -> Option<u16>
    decreases lives.len(),
{
    if lives.len() == 0 {
        baseline
    } else {
        captured_after(Some(capture(baseline, lives[0])), lives.drop_first())
    }
}

/// Law: once a baseline is captured it survives any number of later
/// operations unchanged, whatever live words they observe. With `reset`
/// returning the captured baseline, this is what makes `reset` restore
/// the original word no matter how many changes ran in between.
pub proof fn lemma_baseline_stable(original: u16, lives: Seq<u16>)
    ensures
        captured_after(Some(original), lives) == Some(original),
    decreases lives.len(),
{
    if lives.len() > 0 {
        lemma_baseline_stable(original, lives.drop_first());
    }
}

/// Law: starting with no baseline, the first operation's live word is
/// captured and every later operation observes exactly that word.
pub proof fn lemma_first_capture_wins(lives: Seq<u16>)
    requires
        lives.len() > 0,
    ensures
        captured_after(None, lives) == Some(lives[0]),
{
    lemma_baseline_stable(lives[0], lives.drop_first());
}

/// The legacy console backend.
///
/// It owns the one-time-captured baseline word; the console itself stays
/// with the caller, who passes the live attribute word in and writes the
/// returned word back.
pub struct WinApiColor {
    original: Option<u16>,
}

impl WinApiColor {
    /// The captured baseline, or `None` before the first operation.
    pub closed spec fn baseline(&self) -> Option<u16> {
        self.original
    }

    /// Creates a backend with no baseline captured yet.
    pub fn new() -> (backend: WinApiColor)
        ensures
            backend.baseline() is None,
    {
        WinApiColor { original: None }
    }

    /// True once the baseline has been captured.
    pub fn is_baseline_captured(&self) -> (captured: bool)
        ensures
            captured == (self.baseline() is Some),
    {
        self.original.is_some()
    }

    /// Stores `live` as the baseline if none is captured yet; once a
    /// baseline is stored, later calls never change it.
    pub fn ensure_baseline_captured(&mut self, live: u16)
        ensures
            final(self).baseline() == Some(capture(old(self).baseline(), live)),
    {
        if self.original.is_none() {
            self.original = Some(live);
        }
    }

    /// The captured baseline word.
    pub fn original_console_color(&self) -> (original: u16)
        requires
            self.baseline() is Some,
        ensures
            self.baseline() == Some(original),
    {
        match self.original {
            Some(b) => b,
            None => 0,
        }
    }

    /// Computes the word a foreground change writes back, capturing the
    /// baseline first if this is the first operation.
    ///
    /// `live` is the console's current attribute word; the result keeps
    /// its background field (color and intensity) bitwise unchanged.
    pub fn set_fg(&mut self, fg_color: ColorType, live: u16) -> (word: u16)
        ensures
            final(self).baseline() == Some(capture(old(self).baseline(), live)),
            word == merge_foreground(
                live,
                foreground_bits(fg_color, capture(old(self).baseline(), live)),
            ),
    {
        self.ensure_baseline_captured(live);
        let bits = color_value(Colored::Fg(fg_color), self.original_console_color());

        // The background color bits sit at 0x0070 in the attribute word.
        let bg_color = live & 0x0070;
        let mut word = bits | bg_color;

        // Background intensity is a separate bit; carry it over when the
        // live word has it set.
        if live & BG_INTENSITY != 0 {
            word = word | BG_INTENSITY;
            assert((bits | (live & 0x0070u16)) | 0x0080u16 == bits | (live & 0x00f0u16))
                by (bit_vector)
                requires
                    live & 0x0080u16 != 0,
            ;
        } else {
            assert(bits | (live & 0x0070u16) == bits | (live & 0x00f0u16)) by (bit_vector)
                requires
                    live & 0x0080u16 == 0,
            ;
        }

        word
    }

    /// Computes the word a background change writes back, capturing the
    /// baseline first if this is the first operation.
    ///
    /// `live` is the console's current attribute word; the result keeps
    /// its foreground field (color and intensity) bitwise unchanged.
    pub fn set_bg(&mut self, bg_color: ColorType, live: u16) -> (word: u16)
        ensures
            final(self).baseline() == Some(capture(old(self).baseline(), live)),
            word == merge_background(
                live,
                background_bits(bg_color, capture(old(self).baseline(), live)),
            ),
    {
        self.ensure_baseline_captured(live);
        let bits = color_value(Colored::Bg(bg_color), self.original_console_color());

        // The foreground color bits sit at 0x0007 in the attribute word.
        let fg_color = live & 0x0007;
        let mut word = fg_color | bits;

        // Foreground intensity is a separate bit; carry it over when the
        // live word has it set.
        if live & FG_INTENSITY != 0 {
            word = word | FG_INTENSITY;
            assert(((live & 0x0007u16) | bits) | 0x0008u16 == (live & 0x000fu16) | bits)
                by (bit_vector)
                requires
                    live & 0x0008u16 != 0,
            ;
        } else {
            assert((live & 0x0007u16) | bits == (live & 0x000fu16) | bits) by (bit_vector)
                requires
                    live & 0x0008u16 == 0,
            ;
        }

        word
    }

    /// The word that restores the console to its pre-modification state:
    /// the captured baseline, captured from `live` first if no operation
    /// has run yet.
    pub fn reset(&mut self, live: u16) -> (word: u16)
        ensures
            final(self).baseline() == Some(capture(old(self).baseline(), live)),
            word == capture(old(self).baseline(), live),
    {
        self.ensure_baseline_captured(live);
        self.original_console_color()
    }
}

} // verus!
