//! The finished buffer as HTML: runs of equal style wrapped in spans.

use vstd::prelude::*;

use crate::error::RenderError;
use crate::log::Log;
use crate::style::{Color, Intensity, VisualState};

verus! {

/// Whether `fg` is unset, a triple, or a palette slot of the foreground
/// ranges 30 to 37 and 90 to 97.
pub open spec fn known_fg(fg: Option<Color>) -> bool {
    match fg {
        Some(Color::N(n)) => 30 <= n <= 37 || 90 <= n <= 97,
        _ => true,
    }
}

/// Whether `bg` is unset, a triple, or a palette slot of the background
/// ranges 40 to 47 and 100 to 107.
pub open spec fn known_bg(bg: Option<Color>) -> bool {
    match bg {
        Some(Color::N(n)) => 40 <= n <= 47 || 100 <= n <= 107,
        _ => true,
    }
}

/// Whether both colours of `visual` can be given a class.
pub open spec fn renderable(visual: VisualState) -> bool {
    known_fg(visual.fg) && known_bg(visual.bg)
}

/// The decimal digit `d` as a character.
pub open spec fn digit(d: int) -> char {
    (d + 48) as char
}

/// Class name of an intensity.
pub open spec fn intensity_class(intensity: Intensity) -> Seq<char> {
    match intensity {
        Intensity::Bold => "sgr-bold"@,
        Intensity::Faint => "sgr-faint"@,
    }
}

/// Class name of a foreground palette slot: the standard slots count from
/// 1 behind `sgr-fg-`, the bright ones from 1 behind `sgr-fg-b`.
pub open spec fn fg_class(n: int) -> Seq<char> {
    if n <= 37 {
        "sgr-fg-"@.push(digit(n - 29))
    } else {
        "sgr-fg-b"@.push(digit(n - 89))
    }
}

/// Class name of a background palette slot: the standard slots count from
/// 1 behind `sgr-bg-`, the bright ones from 1 behind `sgr-bg-b`.
pub open spec fn bg_class(n: int) -> Seq<char> {
    if n <= 47 {
        "sgr-bg-"@.push(digit(n - 39))
    } else {
        "sgr-bg-b"@.push(digit(n - 99))
    }
}

/// The classes of a style: intensity, foreground, background, each only if
/// set. A colour given as a triple has no class.
pub open spec fn classes(visual: VisualState) -> Seq<Seq<char>> {
    let intensity = match visual.intensity {
        Some(i) => seq![intensity_class(i)],
        None => Seq::empty(),
    };
    let fg = match visual.fg {
        Some(Color::N(n)) => seq![fg_class(n as int)],
        _ => Seq::empty(),
    };
    let bg = match visual.bg {
        Some(Color::N(n)) => seq![bg_class(n as int)],
        _ => Seq::empty(),
    };
    intensity + fg + bg
}

/// `parts` with one space between neighbours.
pub open spec fn join(parts: Seq<Seq<char>>) -> Seq<char>
    decreases parts.len(),
{
    if parts.len() == 0 {
        Seq::empty()
    } else if parts.len() == 1 {
        parts[0]
    } else {
        join(parts.drop_last()) + " "@ + parts.last()
    }
}

/// Whether characters of this style are wrapped in a span.
pub open spec fn has_span(visual: VisualState) -> bool {
    classes(visual).len() > 0
}

/// The tag that opens the span of a style, empty where it has no span.
pub open spec fn open_tag(visual: VisualState) -> Seq<char> {
    if has_span(visual) {
        "<span class=\""@ + join(classes(visual)) + "\">"@
    } else {
        Seq::empty()
    }
}

/// The tag that closes the span of a style, empty where it has no span.
pub open spec fn close_tag(visual: VisualState) -> Seq<char> {
    if has_span(visual) {
        "</span>"@
    } else {
        Seq::empty()
    }
}

/// What is emitted for position `i`: where a run of equal style starts, the
/// closing tag of the run before and the opening tag of this one; then the
/// character as it is; behind the last character the closing tag of its run.
pub open spec fn piece(chars: Seq<char>, visuals: Seq<VisualState>, i: int) -> Seq<char> {
    let lead = if i == 0 {
        open_tag(visuals[i])
    } else if visuals[i] != visuals[i - 1] {
        close_tag(visuals[i - 1]) + open_tag(visuals[i])
    } else {
        Seq::empty()
    };
    let trail = if i == chars.len() - 1 {
        close_tag(visuals[i])
    } else {
        Seq::empty()
    };
    lead.push(chars[i]) + trail
}

/// What is emitted for the positions before `n`.
pub open spec fn html_upto(chars: Seq<char>, visuals: Seq<VisualState>, n: int) -> Seq<char>
    decreases n,
{
    if n <= 0 {
        Seq::empty()
    } else {
        html_upto(chars, visuals, n - 1) + piece(chars, visuals, n - 1)
    }
}

/// The HTML of a buffer.
pub open spec fn html(chars: Seq<char>, visuals: Seq<VisualState>) -> Seq<char> {
    html_upto(chars, visuals, chars.len() as int)
}

/// `String::push` of std: appends one character to the end of the string.
#[verifier::external_body]
fn push_char(text: &mut String, c: char)
    ensures
        final(text)@ == old(text)@.push(c),
{
    text.push(c)
}

/// `prefix` followed by the digit `index`.
fn numbered_class(prefix: &str, index: u8) -> (name: String)
    requires
        index <= 9,
    ensures
        name@ == prefix@.push(digit(index as int)),
{
    let mut name = String::from_str(prefix);
    push_char(&mut name, (48u8 + index) as char);
    name
}

/// The class names of a style, or the refusal of a palette slot outside
/// the known ranges.
pub fn span_classes(visual: VisualState) -> (result: Result<Vec<String>, RenderError>)
    ensures
        match result {
            Ok(names) => renderable(visual) && names.deep_view() == classes(visual),
            Err(e) => !renderable(visual) && e == RenderError::InvalidColorValue,
        },
{
    let mut names: Vec<String> = Vec::new();
    assert(names.deep_view() =~= Seq::<Seq<char>>::empty());
    match visual.intensity {
        Some(Intensity::Bold) => names.push(String::from_str("sgr-bold")),
        Some(Intensity::Faint) => names.push(String::from_str("sgr-faint")),
        None => (),
    }
    let ghost first = match visual.intensity {
        Some(i) => seq![intensity_class(i)],
        None => Seq::empty(),
    };
    assert(names.deep_view() =~= first);
    match visual.fg {
        Some(Color::N(n)) => {
            if 30 <= n && n <= 37 {
                names.push(numbered_class("sgr-fg-", (n - 29) as u8));
            } else if 90 <= n && n <= 97 {
                names.push(numbered_class("sgr-fg-b", (n - 89) as u8));
            } else {
                return Err(RenderError::InvalidColorValue);
            }
        },
        Some(Color::RGB(_, _, _)) => (),
        None => (),
    }
    let ghost second = match visual.fg {
        Some(Color::N(n)) => seq![fg_class(n as int)],
        _ => Seq::empty(),
    };
    assert(names.deep_view() =~= first + second);
    match visual.bg {
        Some(Color::N(n)) => {
            if 40 <= n && n <= 47 {
                names.push(numbered_class("sgr-bg-", (n - 39) as u8));
            } else if 100 <= n && n <= 107 {
                names.push(numbered_class("sgr-bg-b", (n - 99) as u8));
            } else {
                return Err(RenderError::InvalidColorValue);
            }
        },
        Some(Color::RGB(_, _, _)) => (),
        None => (),
    }
    assert(names.deep_view() =~= classes(visual));
    Ok(names)
}

/// Appends to `out` the tag that opens the span of `visual` and tells
/// whether there is one. A style without a class gets no span. On a refusal
/// `out` stays as it was.
pub fn open_span(visual: VisualState, out: &mut String) -> (result: Result<bool, RenderError>)
    ensures
        match result {
            Ok(opened) => renderable(visual) && opened == has_span(visual) && final(out)@ == old(
                out,
            )@ + open_tag(visual),
            Err(e) => !renderable(visual) && e == RenderError::InvalidColorValue && final(out)@
                == old(out)@,
        },
{
    let names = match span_classes(visual) {
        Ok(names) => names,
        Err(e) => {
            return Err(e);
        },
    };
    if names.len() == 0 {
        assert(old(out)@ + open_tag(visual) =~= old(out)@);
        return Ok(false);
    }
    let ghost parts = names.deep_view();
    let ghost start = out@ + "<span class=\""@;
    out.append("<span class=\"");
    assert(parts.take(0) =~= Seq::<Seq<char>>::empty());
    assert(start + join(parts.take(0)) =~= start);
    for k in 0..names.len()
        invariant
            parts == names.deep_view(),
            out@ == start + join(parts.take(k as int)),
    {
        proof {
            assert(parts.take(k + 1).drop_last() =~= parts.take(k as int));
            assert(parts.take(k + 1).last() == names@[k as int]@);
        }
        if k > 0 {
            out.append(" ");
        }
        out.append(names[k].as_str());
        assert(out@ =~= start + join(parts.take(k + 1)));
    }
    out.append("\">");
    proof {
        assert(parts.take(parts.len() as int) =~= parts);
        assert(out@ =~= old(out)@ + open_tag(visual));
    }
    Ok(true)
}

impl Log {
    /// The HTML of the buffer: its characters as they are, each run of
    /// equal style that has a class wrapped in a span. A palette slot
    /// outside the known ranges anywhere in the buffer is refused.
    pub fn to_html(&self) -> (result: Result<String, RenderError>)
        requires
            self.wf(),
        ensures
            result is Err <==> exists|i: int|
                0 <= i < self@.visuals.len() && !renderable(#[trigger] self@.visuals[i]),
            match result {
                Ok(text) => text@ == html(self@.chars, self@.visuals),
                Err(e) => e == RenderError::InvalidColorValue,
            },
    {
        let mut out = String::new();
        let mut open: bool = false;
        let n: usize = self.chars.len();
        for i in 0..n
            invariant
                n == self.chars@.len(),
                n == self.visuals@.len(),
                out@ == html_upto(self.chars@, self.visuals@, i as int),
                i > 0 ==> open == has_span(self.visuals@[i - 1]),
                forall|k: int| 0 <= k < i ==> renderable(#[trigger] self.visuals@[k]),
        {
            let ghost before = out@;
            if i == 0 {
                open = match open_span(self.visuals[i], &mut out) {
                    Ok(opened) => opened,
                    Err(e) => {
                        assert(!renderable(self@.visuals[i as int]));
                        return Err(e);
                    },
                };
            } else if self.visuals[i] != self.visuals[i - 1] {
                if open {
                    out.append("</span>");
                }
                open = match open_span(self.visuals[i], &mut out) {
                    Ok(opened) => opened,
                    Err(e) => {
                        assert(!renderable(self@.visuals[i as int]));
                        return Err(e);
                    },
                };
            }
            push_char(&mut out, self.chars[i]);
            if i == n - 1 {
                if open {
                    out.append("</span>");
                }
            }
            assert(out@ =~= before + piece(self.chars@, self.visuals@, i as int));
        }
        Ok(out)
    }
}

} // verus!
