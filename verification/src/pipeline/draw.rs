//! The brush pass: its push-constant payload and its scheduling node.

use vstd::prelude::*;
use crate::images::SimulationSurface;
use crate::input::{CanvasPos, DrawingParams};
use crate::pipeline::words::{
    be_image, le_bytes, le_bytes_of_le_word, le_image, le_word_of_le_bytes, native_bytes,
    read_word, word_at,
};
use crate::pipeline::{Dispatch, PipelineStatus, PipelineStatuses};

verus! {

/// Size in bytes of the packed brush parameters.
pub const PUSH_CONSTANT_BYTES: u32 = 24;

/// Radius of the brush, 10.0, as the bit pattern of a single-precision float.
pub const BRUSH_RADIUS: u32 = 0x4120_0000;

/// The parameters of one brush stroke, as the draw shader receives them.
///
/// Floats are held by their bit patterns. The stroke runs from `draw_start`,
/// the cursor in the current frame, to `draw_end`, the cursor in the frame
/// before, so that consecutive strokes join without gaps.
#[derive(Clone, Copy, Debug, PartialEq, Eq, Structural)]
pub struct DrawPushConstants {
    pub draw_start: CanvasPos,
    pub draw_end: CanvasPos,
    pub draw_radius: u32,
    pub element: u32,
}

/// Why brush parameters could not be handed to the device.
#[derive(Clone, Copy, Debug, PartialEq, Eq, Structural)]
pub enum PackError {
    /// The bytes this machine produces for the parameters are not the layout
    /// the shader reads.
    LayoutMismatch,
}

impl DrawPushConstants {
    /// The parameters as six words, in the order the shader declares them.
    pub open spec fn words(self) -> Seq<u32> {
        seq![
            self.draw_start.x,
            self.draw_start.y,
            self.draw_end.x,
            self.draw_end.y,
            self.draw_radius,
            self.element,
        ]
    }

    /// The payload the shader reads: `draw_start` at byte 0, `draw_end` at 8,
    /// `draw_radius` at 16 and `element` at 20, each word least significant
    /// byte first, 24 bytes in all.
    pub open spec fn layout(self) -> Seq<u8> {
        le_image(self.words())
    }

    /// The parameters a shader reads out of a 24-byte payload.
    pub open spec fn parse(payload: Seq<u8>) -> DrawPushConstants {
        DrawPushConstants {
            draw_start: CanvasPos { x: word_at(payload, 0), y: word_at(payload, 4) },
            draw_end: CanvasPos { x: word_at(payload, 8), y: word_at(payload, 12) },
            draw_radius: word_at(payload, 16),
            element: word_at(payload, 20),
        }
    }

    /// Whether the payload comes out the same in either byte order, so that no
    /// machine can get it wrong.
    pub open spec fn order_neutral(self) -> bool {
        le_image(self.words()) == be_image(self.words())
    }

    /// Each field lies at its own offset in the payload: the stroke's start at
    /// bytes 0 and 4, its end at 8 and 12, the radius at 16 and the element at
    /// 20, four bytes each, least significant first.
    pub proof fn layout_offsets(self)
        ensures
            self.layout().len() == PUSH_CONSTANT_BYTES,
            self.layout().subrange(0, 4) == le_bytes(self.draw_start.x),
            self.layout().subrange(4, 8) == le_bytes(self.draw_start.y),
            self.layout().subrange(8, 12) == le_bytes(self.draw_end.x),
            self.layout().subrange(12, 16) == le_bytes(self.draw_end.y),
            self.layout().subrange(16, 20) == le_bytes(self.draw_radius),
            self.layout().subrange(20, 24) == le_bytes(self.element),
    {
        let words = self.words();
        let payload = self.layout();
        assert forall|k: int| 0 <= k < 6 implies #[trigger] payload.subrange(4 * k, 4 * k + 4)
            =~= le_bytes(words[k]) by {
            let piece = payload.subrange(4 * k, 4 * k + 4);
            assert forall|b: int| 0 <= b < 4 implies piece[b] == le_bytes(words[k])[b] by {
                assert(piece[b] == payload[4 * k + b]);
                assert((4 * k + b) / 4 == k && (4 * k + b) % 4 == b);
            }
        }
        assert(payload.subrange(4 * 0int, 4 * 0int + 4) == le_bytes(words[0]));
        assert(payload.subrange(4 * 1int, 4 * 1int + 4) == le_bytes(words[1]));
        assert(payload.subrange(4 * 2int, 4 * 2int + 4) == le_bytes(words[2]));
        assert(payload.subrange(4 * 3int, 4 * 3int + 4) == le_bytes(words[3]));
        assert(payload.subrange(4 * 4int, 4 * 4int + 4) == le_bytes(words[4]));
        assert(payload.subrange(4 * 5int, 4 * 5int + 4) == le_bytes(words[5]));
    }

    /// Reading a laid-out payload gives the parameters back, field for field.
    pub proof fn parse_of_layout(self)
        ensures
            self.layout().len() == PUSH_CONSTANT_BYTES,
            Self::parse(self.layout()) == self,
    {
        let words = self.words();
        let payload = self.layout();
        assert forall|k: int| 0 <= k < 6 implies word_at(payload, 4 * k) == #[trigger] words[k] by {
            le_word_of_le_bytes(words[k]);
            assert(payload[4 * k] == le_bytes(words[(4 * k) / 4])[(4 * k) % 4]);
            assert(payload[4 * k + 1] == le_bytes(words[(4 * k + 1) / 4])[(4 * k + 1) % 4]);
            assert(payload[4 * k + 2] == le_bytes(words[(4 * k + 2) / 4])[(4 * k + 2) % 4]);
            assert(payload[4 * k + 3] == le_bytes(words[(4 * k + 3) / 4])[(4 * k + 3) % 4]);
        }
        assert(word_at(payload, 4 * 0int) == words[0]);
        assert(word_at(payload, 4 * 1int) == words[1]);
        assert(word_at(payload, 4 * 2int) == words[2]);
        assert(word_at(payload, 4 * 3int) == words[3]);
        assert(word_at(payload, 4 * 4int) == words[4]);
        assert(word_at(payload, 4 * 5int) == words[5]);
    }

    /// Laying out what was read from a 24-byte payload gives the payload back,
    /// byte for byte.
    pub proof fn layout_of_parse(payload: Seq<u8>)
        requires
            payload.len() == PUSH_CONSTANT_BYTES,
        ensures
            Self::parse(payload).layout() == payload,
    {
        let parsed = Self::parse(payload);
        let words = parsed.words();
        let image = parsed.layout();
        assert forall|i: int| 0 <= i < 24 implies image[i] == payload[i] by {
            let k = i / 4;
            assert(words[k] == word_at(payload, 4 * k));
            le_bytes_of_le_word(
                payload[4 * k],
                payload[4 * k + 1],
                payload[4 * k + 2],
                payload[4 * k + 3],
            );
            assert(i == 4 * k + i % 4);
        }
        assert(image =~= payload);
    }

    /// Collects the parameters of a stroke.
    pub fn new(
        draw_start: CanvasPos,
        draw_end: CanvasPos,
        draw_radius: u32,
        element: u32,
    ) -> (constants: DrawPushConstants)
        ensures
            constants == (DrawPushConstants { draw_start, draw_end, draw_radius, element }),
    {
        DrawPushConstants { draw_radius, draw_end, draw_start, element }
    }

    /// The parameters as words, in shader order.
    pub fn to_words(&self) -> (words: [u32; 6])
        ensures
            words@ == self.words(),
    {
        let words: [u32; 6] = [
            self.draw_start.x,
            self.draw_start.y,
            self.draw_end.x,
            self.draw_end.y,
            self.draw_radius,
            self.element,
        ];
        assert(words@ =~= self.words());
        words
    }

    /// Reads brush parameters out of a payload, as the shader does. Only a
    /// payload of exactly 24 bytes holds parameters.
    pub fn from_bytes(payload: &[u8]) -> (constants: Option<DrawPushConstants>)
        ensures
            constants == if payload@.len() == PUSH_CONSTANT_BYTES {
                Some(Self::parse(payload@))
            } else {
                None
            },
    {
        if payload.len() != PUSH_CONSTANT_BYTES as usize {
            return None;
        }
        Some(
            DrawPushConstants {
                draw_start: CanvasPos { x: read_word(payload, 0), y: read_word(payload, 4) },
                draw_end: CanvasPos { x: read_word(payload, 8), y: read_word(payload, 12) },
                draw_radius: read_word(payload, 16),
                element: read_word(payload, 20),
            },
        )
    }

    /// Accepts a candidate payload exactly when it is the layout of these
    /// parameters, by reading it back the way the shader will.
    pub fn check_layout(&self, payload: Vec<u8>) -> (checked: Result<Vec<u8>, PackError>)
        ensures
            checked == if payload@ == self.layout() {
                Ok::<Vec<u8>, PackError>(payload)
            } else {
                Err::<Vec<u8>, PackError>(PackError::LayoutMismatch)
            },
    {
        proof {
            self.parse_of_layout();
            if payload@.len() == PUSH_CONSTANT_BYTES {
                Self::layout_of_parse(payload@);
            }
        }
        match Self::from_bytes(payload.as_slice()) {
            Some(read_back) => {
                if read_back == *self {
                    Ok(payload)
                } else {
                    Err(PackError::LayoutMismatch)
                }
            },
            None => Err(PackError::LayoutMismatch),
        }
    }

    /// Packs the parameters into the push-constant payload.
    ///
    /// The bytes are those of the parameters in this machine's memory, checked
    /// against the layout the shader reads. On a machine that stores words
    /// least significant byte first the two agree and the payload is returned.
    /// A payload in the other byte order is refused unless it happens to read
    /// the same. Whatever is returned reads back as these parameters.
    pub fn pack(&self) -> (packed: Result<Vec<u8>, PackError>)
        ensures
            match packed {
                Ok(payload) => payload@ == self.layout() && payload@.len() == PUSH_CONSTANT_BYTES
                    && Self::parse(payload@) == *self,
                Err(e) => e == PackError::LayoutMismatch && !self.order_neutral(),
            },
    {
        proof {
            self.parse_of_layout();
        }
        let words = self.to_words();
        let native = native_bytes(words.as_slice());
        self.check_layout(native)
    }
}

/// Where the draw node stands: waiting for its pipeline, or painting.
#[derive(Clone, Copy, Debug, PartialEq, Eq, Structural)]
pub enum AutomataDrawState {
    Loading,
    Update,
}

impl AutomataDrawState {
    /// The state after one readiness poll. The node starts painting once the
    /// draw pipeline reports ready and never goes back.
    pub open spec fn after(self, draw: PipelineStatus) -> AutomataDrawState {
        match self {
            AutomataDrawState::Loading => if draw == PipelineStatus::Ready {
                AutomataDrawState::Update
            } else {
                AutomataDrawState::Loading
            },
            AutomataDrawState::Update => AutomataDrawState::Update,
        }
    }

    /// The stroke a snapshot asks for: from the current cursor back to the
    /// previous one, with the fixed brush radius and the selected element.
    pub open spec fn stroke(params: DrawingParams) -> DrawPushConstants {
        DrawPushConstants {
            draw_start: params.mouse_pos,
            draw_end: params.prev_mouse_pos,
            draw_radius: BRUSH_RADIUS,
            element: params.element.code(),
        }
    }

    /// What the node issues in this state, given this frame's status of the
    /// draw pipeline: one brush dispatch over the whole grid when the brush is
    /// down, the node has loaded and the pipeline reports ready, else nothing.
    pub open spec fn dispatch(
        self,
        draw: PipelineStatus,
        params: DrawingParams,
        surface: SimulationSurface,
    ) -> Option<Dispatch> {
        if params.is_drawing && self == AutomataDrawState::Update && draw
            == PipelineStatus::Ready {
            Some(
                Dispatch::Draw {
                    push_constants: Self::stroke(params),
                    workgroups: surface.full_grid(),
                },
            )
        } else {
            None
        }
    }
}

/// The scheduling node of the brush pass.
#[derive(Debug)]
pub struct AutomataDrawNode {
    state: AutomataDrawState,
}

impl View for AutomataDrawNode {
    type V = AutomataDrawState;

    closed spec fn view(&self) -> AutomataDrawState {
        self.state
    }
}

impl Default for AutomataDrawNode {
    fn default() -> (node: AutomataDrawNode)
        ensures
            node@ == AutomataDrawState::Loading,
    {
        AutomataDrawNode { state: AutomataDrawState::Loading }
    }
}

impl AutomataDrawNode {
    /// The node's current state.
    pub fn state(&self) -> (state: AutomataDrawState)
        ensures
            state == self@,
    {
        self.state
    }

    /// Advances the node on this frame's poll of the draw pipeline.
    pub fn update(&mut self, draw: PipelineStatus)
        ensures
            final(self)@ == old(self)@.after(draw),
    {
        match self.state {
            AutomataDrawState::Loading => {
                if draw == PipelineStatus::Ready {
                    self.state = AutomataDrawState::Update;
                }
            },
            AutomataDrawState::Update => {},
        }
    }

    /// Decides this frame's brush dispatch from the statuses polled this
    /// frame. The draw pipeline is never dispatched while it does not report
    /// ready, even if it was ready before; the node's state stays where it is.
    pub fn run(
        &self,
        pipelines: &PipelineStatuses,
        params: &DrawingParams,
        surface: &SimulationSurface,
    ) -> (issued: Option<Dispatch>)
        ensures
            issued == self@.dispatch(pipelines.draw, *params, *surface),
            issued matches Some(dispatch) ==> pipelines.of(dispatch.kind())
                == PipelineStatus::Ready,
    {
        if params.is_drawing {
            let element_index = params.element.index();
            match self.state {
                AutomataDrawState::Loading => None,
                AutomataDrawState::Update => {
                    if pipelines.draw == PipelineStatus::Ready {
                        let pc = DrawPushConstants::new(
                            params.mouse_pos,
                            params.prev_mouse_pos,
                            BRUSH_RADIUS,
                            element_index,
                        );
                        Some(
                            Dispatch::Draw {
                                push_constants: pc,
                                workgroups: surface.workgroups(),
                            },
                        )
                    } else {
                        None
                    }
                },
            }
        } else {
            None
        }
    }
}

} // verus!
