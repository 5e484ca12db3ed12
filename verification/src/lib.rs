//! Terminal capability detection and rich rendering primitives: kitty-graphics
//! image frames, OSC 8 hyperlinks, OSC 52 clipboard writes, OSC 133 task
//! markers, box-drawn panels and progress bars, with tmux passthrough and an
//! ASCII fallback.

use vstd::prelude::*;

use crate::b64::base64_len;
use crate::encoder::{kitty_png, kitty_png_tmux, write_kitty_png, write_kitty_png_tmux};
use crate::text::{decimal, push_decimal, utf8, write_str};

pub mod b64;
pub mod capabilities;
pub mod emit;
pub mod encoder;
pub mod image_data;
pub mod interactive;
pub mod klipdot;
pub mod panel;
pub mod progress;
pub mod shader;
pub mod spans;
pub mod text;
pub mod width;

pub use capabilities::Capabilities;
pub use emit::{emit_clipboard, emit_hyperlink, emit_task_markers, wrap_for_tmux_with, TaskPhase};
pub use image_data::ImageData;
pub use interactive::{Key, Outcome, Step};
pub use panel::{emit_panel, emit_panel_spans, BorderStyle};
pub use progress::{progress_line, ProgressStyle};
pub use spans::{render_spans, spans_width, Span};

verus! {

/// Failure of an output sink. Rendering into a byte buffer never fails; the
/// variant stands for sinks that refuse bytes.
#[derive(Debug, Clone, Copy, PartialEq, Eq)]
pub enum EmitError {
    /// The sink refused the bytes.
    Unwritable,
}

/// The text shown in place of an image when the terminal has no graphics:
/// `[image: WxH ALT (graphics protocol unavailable)]` and a newline, with
/// `untitled` when there is no alternative text.
pub open spec fn image_placeholder(img: ImageData) -> Seq<char> {
    "[image: "@ + decimal(img.width as nat) + seq!['x'] + decimal(img.height as nat) + seq![' ']
        + match img.alt_text {
        Some(a) => a@,
        None => "untitled"@,
    } + " (graphics protocol unavailable)]\n"@
}

/// What an image emits for `caps`: the kitty frames of its PNG bytes when
/// the terminal renders graphics (each DCS-wrapped for tmux passthrough
/// inside tmux), the UTF-8 placeholder text otherwise.
pub open spec fn image_output(caps: Capabilities, img: ImageData) -> Seq<u8> {
    if caps.graphics && caps.in_tmux {
        kitty_png_tmux(img.png_bytes@)
    } else if caps.graphics {
        kitty_png(img.png_bytes@)
    } else {
        utf8(image_placeholder(img))
    }
}

/// With graphics, an image's output depends on its PNG bytes alone: its size
/// and alternative text are not written, and the output is the kitty frames
/// that `write_kitty_png` writes for those bytes, or inside tmux those that
/// `write_kitty_png_tmux` writes.
pub proof fn graphics_output_is_the_png_alone(caps: Capabilities, a: ImageData, b: ImageData)
    requires
        caps.graphics,
        a.png_bytes@ == b.png_bytes@,
    ensures
        image_output(caps, a) == image_output(caps, b),
        image_output(caps, a) == if caps.in_tmux {
            kitty_png_tmux(a.png_bytes@)
        } else {
            kitty_png(a.png_bytes@)
        },
{
}

/// Writes an image to `out` using the best mode for `caps`: kitty-graphics
/// frames when the terminal renders graphics (DCS-wrapped inside tmux), a
/// short text summary otherwise.
pub fn emit_image(out: &mut Vec<u8>, caps: &Capabilities, img: &ImageData) -> (r: Result<(), EmitError>)
    requires
        caps.graphics ==> base64_len(img.png_bytes@.len()) <= usize::MAX,
    ensures
        r is Ok,
        final(out)@ == old(out)@ + image_output(*caps, *img),
{
    if caps.graphics && caps.in_tmux {
        write_kitty_png_tmux(out, img.png_bytes.as_slice())
    } else if caps.graphics {
        write_kitty_png(out, img.png_bytes.as_slice())
    } else {
        let mut s = String::new();
        s.push_str("[image: ");
        push_decimal(&mut s, img.width as u64);
        s.push('x');
        push_decimal(&mut s, img.height as u64);
        s.push(' ');
        match &img.alt_text {
            Some(a) => s.push_str(a.as_str()),
            None => s.push_str("untitled"),
        }
        s.push_str(" (graphics protocol unavailable)]\n");
        assert(s@ =~= image_placeholder(*img));
        write_str(out, s.as_str());
        Ok(())
    }
}

} // verus!
