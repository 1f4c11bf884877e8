//! Operator input: the buttons and the rotary encoder become input events,
//! kept in a bounded queue, and events become commands.

use vstd::prelude::*;
use crate::debounce::{ButtonEdge, Debouncer};
use crate::params::{Field, ParamCommand};

verus! {

#[derive(Debug, Clone, Copy, PartialEq, Eq, Structural)]
pub enum Button {
    Up,
    Down,
    Select,
    Left,
    Right,
}

#[derive(Debug, Clone, Copy, PartialEq, Eq, Structural)]
pub enum InputEvent {
    ButtonPressed(Button),
    ButtonReleased(Button),
    EncoderDelta(i32),
}

/// Position of the phase pair `(a, b)` along the quadrature cycle
/// 00, 01, 11, 10.
pub open spec fn phase_index(a: bool, b: bool) -> int {
    if !a && !b {
        0
    } else if !a && b {
        1
    } else if a && b {
        2
    } else {
        3
    }
}

/// Encoder steps between two phase readings: one forward, one back, or none
/// where nothing changed or both lines changed at once.
pub open spec fn quadrature_delta(pa: bool, pb: bool, a: bool, b: bool) -> int {
    let d = (phase_index(a, b) - phase_index(pa, pb) + 4) % 4;
    if d == 1 {
        1
    } else if d == 3 {
        -1
    } else {
        0
    }
}

/// Decodes the two quadrature lines of the rotary encoder: `a` is the
/// clock line and `b` the data line, so that a clockwise detent counts up.
#[derive(Debug, Clone, Copy, PartialEq, Eq, Structural)]
pub struct QuadratureDecoder {
    pub a: bool,
    pub b: bool,
}

fn phase_index_exec(a: bool, b: bool) -> (r: u8)
    ensures
        r as int == phase_index(a, b),
{
    if !a && !b {
        0
    } else if !a && b {
        1
    } else if a && b {
        2
    } else {
        3
    }
}

impl QuadratureDecoder {
    pub fn new(a: bool, b: bool) -> (r: QuadratureDecoder)
        ensures
            r == (QuadratureDecoder { a, b }),
    {
        QuadratureDecoder { a, b }
    }

    /// Takes one reading of the lines and returns the signed step it makes.
    pub fn update(&mut self, a: bool, b: bool) -> (r: i8)
        ensures
            r as int == quadrature_delta(old(self).a, old(self).b, a, b),
            *final(self) == (QuadratureDecoder { a, b }),
    {
        let d = (phase_index_exec(a, b) + 4 - phase_index_exec(self.a, self.b)) % 4;
        self.a = a;
        self.b = b;
        if d == 1 {
            1
        } else if d == 3 {
            -1
        } else {
            0
        }
    }
}

/// Levels of all inputs at one poll.
#[derive(Debug, Clone, Copy, PartialEq, Eq, Structural)]
pub struct InputSample {
    pub up: bool,
    pub down: bool,
    pub select: bool,
    pub left: bool,
    pub right: bool,
    pub encoder_a: bool,
    pub encoder_b: bool,
}

/// The event of a debounced edge of button `b`.
pub open spec fn edge_event(b: Button, e: Option<ButtonEdge>) -> Seq<InputEvent> {
    match e {
        Some(ButtonEdge::Pressed) => seq![InputEvent::ButtonPressed(b)],
        Some(ButtonEdge::Released) => seq![InputEvent::ButtonReleased(b)],
        None => Seq::empty(),
    }
}

/// Debouncers for the five buttons and the encoder's decoder.
#[derive(Debug, Clone, Copy, PartialEq, Eq, Structural)]
pub struct InputHandler {
    pub up: Debouncer,
    pub down: Debouncer,
    pub select: Debouncer,
    pub left: Debouncer,
    pub right: Debouncer,
    pub encoder: QuadratureDecoder,
}

impl InputHandler {
    pub open spec fn wf(&self) -> bool {
        self.up.wf() && self.down.wf() && self.select.wf() && self.left.wf() && self.right.wf()
    }

    /// The events of one poll, buttons in the order up, down, select, left,
    /// right, then the encoder.
    pub open spec fn events_of(self, s: InputSample) -> Seq<InputEvent> {
        let d = quadrature_delta(self.encoder.a, self.encoder.b, s.encoder_a, s.encoder_b);
        edge_event(Button::Up, self.up.step(s.up).1) + edge_event(
            Button::Down,
            self.down.step(s.down).1,
        ) + edge_event(Button::Select, self.select.step(s.select).1) + edge_event(
            Button::Left,
            self.left.step(s.left).1,
        ) + edge_event(Button::Right, self.right.step(s.right).1) + if d == 0 {
            Seq::empty()
        } else {
            seq![InputEvent::EncoderDelta(d as i32)]
        }
    }

    /// All buttons released, the encoder at phase `(a, b)`.
    pub fn new(settle: u32, a: bool, b: bool) -> (r: InputHandler)
        requires
            settle > 0,
        ensures
            r.wf(),
            r.up == (Debouncer { stable: false, run: 0, settle }),
            r.down == r.up && r.select == r.up && r.left == r.up && r.right == r.up,
            r.encoder == (QuadratureDecoder { a, b }),
    {
        InputHandler {
            up: Debouncer::new(settle),
            down: Debouncer::new(settle),
            select: Debouncer::new(settle),
            left: Debouncer::new(settle),
            right: Debouncer::new(settle),
            encoder: QuadratureDecoder::new(a, b),
        }
    }

    /// Takes one poll of all inputs and returns its events.
    pub fn poll(&mut self, s: InputSample) -> (r: Vec<InputEvent>)
        requires
            old(self).wf(),
        ensures
            final(self).wf(),
            r@ == old(self).events_of(s),
            final(self).up == old(self).up.step(s.up).0,
            final(self).down == old(self).down.step(s.down).0,
            final(self).select == old(self).select.step(s.select).0,
            final(self).left == old(self).left.step(s.left).0,
            final(self).right == old(self).right.step(s.right).0,
            final(self).encoder == (QuadratureDecoder { a: s.encoder_a, b: s.encoder_b }),
    {
        let ghost h = *self;
        let ghost e1 = edge_event(Button::Up, h.up.step(s.up).1);
        let ghost e2 = edge_event(Button::Down, h.down.step(s.down).1);
        let ghost e3 = edge_event(Button::Select, h.select.step(s.select).1);
        let ghost e4 = edge_event(Button::Left, h.left.step(s.left).1);
        let ghost e5 = edge_event(Button::Right, h.right.step(s.right).1);
        let mut out: Vec<InputEvent> = Vec::new();
        let e = self.up.sample(s.up);
        push_edge(&mut out, Button::Up, e);
        assert(out@ =~= e1);
        let e = self.down.sample(s.down);
        push_edge(&mut out, Button::Down, e);
        let e = self.select.sample(s.select);
        push_edge(&mut out, Button::Select, e);
        let e = self.left.sample(s.left);
        push_edge(&mut out, Button::Left, e);
        let e = self.right.sample(s.right);
        push_edge(&mut out, Button::Right, e);
        assert(out@ == e1 + e2 + e3 + e4 + e5);
        let d = self.encoder.update(s.encoder_a, s.encoder_b);
        if d != 0 {
            out.push(InputEvent::EncoderDelta(d as i32));
            assert(out@ =~= e1 + e2 + e3 + e4 + e5 + seq![InputEvent::EncoderDelta(d as i32)]);
        } else {
            assert(out@ =~= e1 + e2 + e3 + e4 + e5 + Seq::<InputEvent>::empty());
        }
        out
    }
}

fn push_edge(out: &mut Vec<InputEvent>, b: Button, e: Option<ButtonEdge>)
    ensures
        final(out)@ == old(out)@ + edge_event(b, e),
{
    match e {
        Some(ButtonEdge::Pressed) => out.push(InputEvent::ButtonPressed(b)),
        Some(ButtonEdge::Released) => out.push(InputEvent::ButtonReleased(b)),
        None => {},
    }
    assert(out@ =~= old(out)@ + edge_event(b, e));
}

} // verus!
