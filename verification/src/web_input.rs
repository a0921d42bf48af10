//! Browser input codes of the web host: raw pointer packets arrive with numeric kind and phase
//! codes and must name the presented frame they belong to; cursor requests leave as codes.
use vstd::prelude::*;

use crate::session::CursorKind;

verus! {

/// Pointer device kind of the application ABI.
#[derive(Clone, Copy, Debug, PartialEq, Eq, Structural)]
pub enum PointerKind {
    /// A mouse.
    Mouse,
    /// A touch contact.
    Touch,
    /// A pen.
    Pen,
}

/// Pointer phase of the application ABI.
#[derive(Clone, Copy, Debug, PartialEq, Eq, Structural)]
pub enum WebPointerPhase {
    /// Contact began.
    Down,
    /// Contact moved.
    Move,
    /// Contact ended.
    Up,
    /// Contact was cancelled.
    Cancel,
    /// A wheel or trackpad scroll.
    Scroll,
}

/// Why a browser input was refused.
#[derive(Clone, Copy, Debug, PartialEq, Eq, Structural)]
pub enum WebInputError {
    /// The pointer kind code is not `0` mouse, `1` touch or `2` pen.
    UnsupportedPointerKind(u8),
    /// The pointer phase code is not `0` down, `1` move, `2` up, `3` cancel or `4` scroll.
    UnsupportedPointerPhase(u8),
    /// Frame-owned input needs a non-zero presented frame token.
    MissingFrameToken,
}

/// A raw browser pointer packet, its coordinates and deltas carried as `P` unchanged.
#[derive(Clone, Copy, Debug)]
pub struct BrowserPointer<P> {
    /// Presented frame the input belongs to (non-zero).
    pub source_frame_token: u64,
    /// Browser `pointerId`.
    pub pointer_id: u64,
    /// Device kind.
    pub kind: PointerKind,
    /// Phase.
    pub phase: WebPointerPhase,
    /// Coordinates and scroll deltas as the browser reported them after conversion.
    pub geometry: P,
    /// Browser `buttons`.
    pub buttons: u16,
    /// Browser `timeStamp` in microseconds.
    pub timestamp_micros: u64,
}

/// Browser pointer kind code of a mouse.
pub const POINTER_KIND_MOUSE: u8 = 0;
/// Browser pointer kind code of a touch contact.
pub const POINTER_KIND_TOUCH: u8 = 1;
/// Browser pointer kind code of a pen.
pub const POINTER_KIND_PEN: u8 = 2;

/// Browser pointer phase code of `pointerdown`.
pub const POINTER_PHASE_DOWN: u8 = 0;
/// Browser pointer phase code of `pointermove`.
pub const POINTER_PHASE_MOVE: u8 = 1;
/// Browser pointer phase code of `pointerup`.
pub const POINTER_PHASE_UP: u8 = 2;
/// Browser pointer phase code of `pointercancel`.
pub const POINTER_PHASE_CANCEL: u8 = 3;
/// Browser pointer phase code of a wheel scroll.
pub const POINTER_PHASE_SCROLL: u8 = 4;

/// The kind a code names, if any.
pub open spec fn kind_of_code(code: u8) -> Option<PointerKind> {
    match code {
        0 => Some(PointerKind::Mouse),
        1 => Some(PointerKind::Touch),
        2 => Some(PointerKind::Pen),
        _ => None,
    }
}

/// The phase a code names, if any.
pub open spec fn phase_of_code(code: u8) -> Option<WebPointerPhase> {
    match code {
        0 => Some(WebPointerPhase::Down),
        1 => Some(WebPointerPhase::Move),
        2 => Some(WebPointerPhase::Up),
        3 => Some(WebPointerPhase::Cancel),
        4 => Some(WebPointerPhase::Scroll),
        _ => None,
    }
}

/// Each kind code names exactly its own kind: mouse, touch and pen by their codes, and no
/// other code names a kind.
pub proof fn lemma_kind_codes(code: u8)
    ensures
        kind_of_code(code) == Some(PointerKind::Mouse) <==> code == POINTER_KIND_MOUSE,
        kind_of_code(code) == Some(PointerKind::Touch) <==> code == POINTER_KIND_TOUCH,
        kind_of_code(code) == Some(PointerKind::Pen) <==> code == POINTER_KIND_PEN,
        kind_of_code(code) is None <==> code > POINTER_KIND_PEN,
{
}

/// Each phase code names exactly its own phase: down, move, up, cancel and scroll by their
/// codes, and no other code names a phase.
pub proof fn lemma_phase_codes(code: u8)
    ensures
        phase_of_code(code) == Some(WebPointerPhase::Down) <==> code == POINTER_PHASE_DOWN,
        phase_of_code(code) == Some(WebPointerPhase::Move) <==> code == POINTER_PHASE_MOVE,
        phase_of_code(code) == Some(WebPointerPhase::Up) <==> code == POINTER_PHASE_UP,
        phase_of_code(code) == Some(WebPointerPhase::Cancel) <==> code == POINTER_PHASE_CANCEL,
        phase_of_code(code) == Some(WebPointerPhase::Scroll) <==> code == POINTER_PHASE_SCROLL,
        phase_of_code(code) is None <==> code > POINTER_PHASE_SCROLL,
{
}

/// Decodes a browser pointer kind code.
pub fn decode_pointer_kind(code: u8) -> (kind: Result<PointerKind, WebInputError>)
    ensures
        kind == (match kind_of_code(code) {
            Some(k) => Ok(k),
            None => Err(WebInputError::UnsupportedPointerKind(code)),
        }),
{
    match code {
        0 => Ok(PointerKind::Mouse),
        1 => Ok(PointerKind::Touch),
        2 => Ok(PointerKind::Pen),
        _ => Err(WebInputError::UnsupportedPointerKind(code)),
    }
}

/// Decodes a browser pointer phase code.
pub fn decode_pointer_phase(code: u8) -> (phase: Result<WebPointerPhase, WebInputError>)
    ensures
        phase == (match phase_of_code(code) {
            Some(p) => Ok(p),
            None => Err(WebInputError::UnsupportedPointerPhase(code)),
        }),
{
    match code {
        0 => Ok(WebPointerPhase::Down),
        1 => Ok(WebPointerPhase::Move),
        2 => Ok(WebPointerPhase::Up),
        3 => Ok(WebPointerPhase::Cancel),
        4 => Ok(WebPointerPhase::Scroll),
        _ => Err(WebInputError::UnsupportedPointerPhase(code)),
    }
}

/// Checks that frame-owned input names a presented frame: token zero means none.
pub fn frame_input_token(raw_source_frame_token: u64) -> (token: Result<u64, WebInputError>)
    ensures
        token == (if raw_source_frame_token == 0 {
            Err(WebInputError::MissingFrameToken)
        } else {
            Ok(raw_source_frame_token)
        }),
{
    if raw_source_frame_token == 0 {
        Err(WebInputError::MissingFrameToken)
    } else {
        Ok(raw_source_frame_token)
    }
}

/// Builds one raw browser pointer packet: the kind code is checked first, then the phase code,
/// then the frame token; every other field is forwarded unchanged. No click or drag is inferred.
pub fn browser_pointer<P: Copy>(
    source_frame_token: u64,
    pointer_id: u64,
    kind: u8,
    phase: u8,
    geometry: P,
    buttons: u16,
    timestamp_micros: u64,
) -> (packet: Result<BrowserPointer<P>, WebInputError>)
    ensures
        kind_of_code(kind) is None ==> packet == Err::<BrowserPointer<P>, WebInputError>(
            WebInputError::UnsupportedPointerKind(kind),
        ),
        kind_of_code(kind) is Some && phase_of_code(phase) is None ==> packet == Err::<
            BrowserPointer<P>,
            WebInputError,
        >(WebInputError::UnsupportedPointerPhase(phase)),
        kind_of_code(kind) is Some && phase_of_code(phase) is Some && source_frame_token == 0
            ==> packet == Err::<BrowserPointer<P>, WebInputError>(WebInputError::MissingFrameToken),
        kind_of_code(kind) is Some && phase_of_code(phase) is Some && source_frame_token != 0
            ==> packet == Ok::<BrowserPointer<P>, WebInputError>(
            BrowserPointer {
                source_frame_token,
                pointer_id,
                kind: kind_of_code(kind)->0,
                phase: phase_of_code(phase)->0,
                geometry,
                buttons,
                timestamp_micros,
            },
        ),
{
    let kind = match decode_pointer_kind(kind) {
        Ok(kind) => kind,
        Err(error) => return Err(error),
    };
    let phase = match decode_pointer_phase(phase) {
        Ok(phase) => phase,
        Err(error) => return Err(error),
    };
    let source_frame_token: u64 = match frame_input_token(source_frame_token) {
        Ok(token) => token,
        Err(error) => return Err(error),
    };
    Ok(BrowserPointer { source_frame_token, pointer_id, kind, phase, geometry, buttons, timestamp_micros })
}

/// The cursor code the web host applies: `0` default, `1` text, `2` pointer.
pub fn cursor_code(cursor: CursorKind) -> (code: u8)
    ensures
        code == (match cursor {
            CursorKind::Default => 0u8,
            CursorKind::Text => 1u8,
            CursorKind::Pointer => 2u8,
        }),
{
    match cursor {
        CursorKind::Default => 0,
        CursorKind::Text => 1,
        CursorKind::Pointer => 2,
    }
}

} // verus!
