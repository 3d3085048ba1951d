//! The scene: one store for each parameter block, the changes that input asks
//! for, and what a frame has to write, bind and draw.

use vstd::prelude::*;
use crate::binary32::{word, Binary32};
use crate::controls::Controls;
use crate::binary32::within_is_finite;
use crate::params::{
    ColorParams, Coordinates, Iterations, Viewport, CENTER_MAX, CENTER_MIN, CHANNEL_MAX,
    CHANNEL_MIN, HALF_MAX, HALF_MIN, ITERATIONS_MAX, RATIO_MAX, RATIO_MIN, ZOOM_MAX, ZOOM_MIN,
};
use crate::uniform::{memory_image, Access, Block, Uniform};

verus! {

/// The binding slot of the viewport block.
pub const VIEWPORT_BINDING: u32 = 0;

/// The binding slot of the coordinates block.
pub const COORDINATES_BINDING: u32 = 1;

/// The binding slot of the iterations block.
pub const ITERATIONS_BINDING: u32 = 2;

/// The binding slot of the colour block.
pub const COLOR_BINDING: u32 = 3;

/// The vertices of one frame: two triangles that cover the window.
pub const VERTICES: u32 = 6;

/// The instances of one frame.
pub const INSTANCES: u32 = 1;

/// The iteration cap of a new scene.
pub const START_ITERATIONS: i32 = 1000;

/// The word of 0.5, the hue of a new scene.
pub const START_HUE: u32 = 0x3f00_0000;

/// The word of 1, the saturation of a new scene.
pub const START_SATURATION: u32 = 0x3f80_0000;

/// The word of 1, the lightness of a new scene.
pub const START_LIGHTNESS: u32 = 0x3f80_0000;

/// Bytes to write at the start of the buffer behind a binding slot.
#[derive(Debug)]
pub struct BufferWrite {
    pub binding: u32,
    pub bytes: Vec<u8>,
}

/// What one frame does, in this order: the buffer writes, then the bind groups
/// bound at the slots of `bind_groups` from first to last, then one draw of
/// `vertices` vertices and `instances` instances.
#[derive(Debug)]
pub struct Frame {
    pub writes: Vec<BufferWrite>,
    pub bind_groups: [u32; 4],
    pub vertices: u32,
    pub instances: u32,
}

/// The four parameter stores of the viewer.
pub struct Scene {
    viewport: Uniform<Viewport>,
    coordinates: Uniform<Coordinates>,
    pub iterations: Uniform<Iterations>,
    color_params: Uniform<ColorParams>,
}

impl Scene {
    /// The store of the viewport block.
    pub closed spec fn viewport(self) -> Uniform<Viewport> {
        self.viewport
    }

    /// The store of the coordinates block.
    pub closed spec fn coordinates(self) -> Uniform<Coordinates> {
        self.coordinates
    }

    /// The store of the iterations block.
    pub closed spec fn iterations(self) -> Uniform<Iterations> {
        self.iterations
    }

    /// The store of the colour block.
    pub closed spec fn color_params(self) -> Uniform<ColorParams> {
        self.color_params
    }

    /// The words of the block behind a binding slot.
    pub open spec fn block(self, binding: u32) -> Seq<u32> {
        if binding == VIEWPORT_BINDING {
            self.viewport().value().words()
        } else if binding == COORDINATES_BINDING {
            self.coordinates().value().words()
        } else if binding == ITERATIONS_BINDING {
            self.iterations().value().words()
        } else {
            self.color_params().value().words()
        }
    }

    /// The binding slots whose buffers are behind, in rising order.
    pub open spec fn stale(self) -> Seq<u32> {
        (if self.viewport().dirty() {
            seq![VIEWPORT_BINDING]
        } else {
            seq![]
        }) + (if self.coordinates().dirty() {
            seq![COORDINATES_BINDING]
        } else {
            seq![]
        }) + (if self.iterations().dirty() {
            seq![ITERATIONS_BINDING]
        } else {
            seq![]
        }) + (if self.color_params().dirty() {
            seq![COLOR_BINDING]
        } else {
            seq![]
        })
    }

    /// Every block holds numbers only, each in its range: nothing that is
    /// not a number, and no infinity, is among the words that the shader
    /// reads.
    pub open spec fn sound(self) -> bool {
        &&& self.viewport().value().defined()
        &&& self.coordinates().value().bounded()
        &&& 0 <= self.iterations().value().value() <= ITERATIONS_MAX
        &&& self.color_params().value().bounded()
    }

    /// The channel `asked` asks for nothing new of the channel `held`: it is
    /// the value of `held`, or it is not a number and so is ignored.
    pub open spec fn same_channel(held: Binary32, asked: Binary32) -> bool {
        asked.nan() || held.same_value(asked)
    }

    /// The three channels of `color` ask for nothing new of the three
    /// channels of `params`.
    pub open spec fn same_hsl(params: ColorParams, color: (Binary32, Binary32, Binary32)) -> bool {
        &&& Self::same_channel(params.hsl().0, color.0)
        &&& Self::same_channel(params.hsl().1, color.1)
        &&& Self::same_channel(params.hsl().2, color.2)
    }

    /// Shows that the scene at hand is sound: the types of its four blocks
    /// see to it.
    fn soundness(&self)
        ensures
            self.sound(),
    {
        let viewport = &*self.viewport;
        let coordinates = &*self.coordinates;
        let iterations = &*self.iterations;
        let color_params = &*self.color_params;
        proof {
            use_type_invariant(viewport);
            use_type_invariant(coordinates);
            use_type_invariant(iterations);
            use_type_invariant(color_params);
        }
    }

    /// A scene for a window of the given viewport: the whole set in view, 1000
    /// iterations, hue 0.5 at full saturation and lightness with no channel
    /// linked, and every buffer taken to be created from its store's contents.
    pub fn new(viewport: Viewport) -> (r: Scene)
        ensures
            r.viewport().value() == viewport,
            r.coordinates().value().center() == (word(0), word(0)),
            r.coordinates().value().zoom() == word(ZOOM_MAX),
            r.iterations().value().value() == START_ITERATIONS,
            r.color_params().value().hsl() == (
                word(START_HUE),
                word(START_SATURATION),
                word(START_LIGHTNESS),
            ),
            r.color_params().value().flags() == (0i32, 0i32, 0i32),
            r.stale() =~= Seq::<u32>::empty(),
    {
        Scene {
            viewport: Uniform::new(viewport),
            coordinates: Uniform::new(Coordinates::default()),
            iterations: Uniform::new(Iterations::new(START_ITERATIONS)),
            color_params: Uniform::new(
                ColorParams::new(
                    Binary32::from_bits(START_HUE),
                    Binary32::from_bits(START_SATURATION),
                    Binary32::from_bits(START_LIGHTNESS),
                ),
            ),
        }
    }

    /// The bytes that the buffer behind each binding slot is created from: one
    /// entry for each slot, in rising order, with the block as it stands.
    pub fn contents(&self) -> (buffers: Vec<BufferWrite>)
        ensures
            self.sound(),
            buffers@.len() == 4,
            forall|i: int|
                0 <= i < 4 ==> (#[trigger] buffers@[i]).binding == i && memory_image(
                    buffers@[i].bytes@,
                    self.block(i as u32),
                ),
    {
        self.soundness();
        vec![
            BufferWrite { binding: VIEWPORT_BINDING, bytes: self.viewport.contents() },
            BufferWrite { binding: COORDINATES_BINDING, bytes: self.coordinates.contents() },
            BufferWrite { binding: ITERATIONS_BINDING, bytes: self.iterations.contents() },
            BufferWrite { binding: COLOR_BINDING, bytes: self.color_params.contents() },
        ]
    }

    /// Takes over the viewport of the resized window.
    pub fn resize(&mut self, viewport: Viewport)
        ensures
            final(self).viewport() == old(self).viewport().after(Access::Assign(viewport)),
            final(self).viewport().value() == viewport,
            final(self).viewport().dirty(),
            final(self).coordinates() == old(self).coordinates(),
            final(self).iterations() == old(self).iterations(),
            final(self).color_params() == old(self).color_params(),
    {
        self.viewport.set(viewport);
    }

    /// The viewport of the window.
    pub fn get_viewport(&self) -> (viewport: &Viewport)
        ensures
            *viewport == self.viewport().value(),
            viewport.defined(),
    {
        let viewport = &*self.viewport;
        proof {
            use_type_invariant(viewport);
        }
        viewport
    }

    /// The center and the zoom scale of the view.
    pub fn get_coordinates(&self) -> (coordinates: &Coordinates)
        ensures
            *coordinates == self.coordinates().value(),
            coordinates.bounded(),
    {
        let coordinates = &*self.coordinates;
        proof {
            use_type_invariant(coordinates);
        }
        coordinates
    }

    /// Moves the center to `center`, each coordinate brought into -2 ..= 2; a
    /// coordinate that is not a number leaves that coordinate as it is.
    pub fn move_center(&mut self, center: (Binary32, Binary32))
        ensures
            final(self).coordinates().value().center() == (
                Coordinates::center_clamped(center.0, old(self).coordinates().value().center().0),
                Coordinates::center_clamped(center.1, old(self).coordinates().value().center().1),
            ),
            final(self).coordinates().value().zoom() == old(self).coordinates().value().zoom(),
            final(self).coordinates().value().bounded(),
            final(self).coordinates().dirty(),
            final(self).viewport() == old(self).viewport(),
            final(self).iterations() == old(self).iterations(),
            final(self).color_params() == old(self).color_params(),
    {
        let moved = self.coordinates.set_complex(center);
        self.coordinates.set(moved);
    }

    /// Sets the zoom scale to `zoom` brought into its range; a scale that is
    /// not a number leaves the scale as it is.
    pub fn zoom(&mut self, zoom: Binary32)
        ensures
            final(self).coordinates().value().zoom() == Coordinates::zoom_clamped(
                zoom,
                old(self).coordinates().value().zoom(),
            ),
            final(self).coordinates().value().center() == old(self).coordinates().value().center(),
            final(self).coordinates().value().bounded(),
            final(self).coordinates().dirty(),
            final(self).viewport() == old(self).viewport(),
            final(self).iterations() == old(self).iterations(),
            final(self).color_params() == old(self).color_params(),
    {
        let zoomed = self.coordinates.set_zoom(zoom);
        self.coordinates.set(zoomed);
    }

    /// Sets the iteration cap to `iterations` brought into 0 ..= 10000.
    pub fn set_iterations(&mut self, iterations: i32)
        ensures
            final(self).iterations().value().value() == Iterations::clamped(iterations),
            final(self).iterations().dirty(),
            final(self).viewport() == old(self).viewport(),
            final(self).coordinates() == old(self).coordinates(),
            final(self).color_params() == old(self).color_params(),
    {
        self.iterations.set(Iterations::new(iterations));
    }

    /// The colour of the scene.
    pub fn get_color_params(&self) -> (params: &ColorParams)
        ensures
            *params == self.color_params().value(),
            params.bounded(),
    {
        let params = &*self.color_params;
        proof {
            use_type_invariant(params);
        }
        params
    }

    /// Sets the three colour channels, each brought into 0 ..= 1; a channel
    /// that is not a number leaves that channel as it is.
    pub fn set_hsl(&mut self, hsl: (Binary32, Binary32, Binary32))
        ensures
            final(self).color_params().value().hsl() == (
                ColorParams::channel_clamped(hsl.0, old(self).color_params().value().hsl().0),
                ColorParams::channel_clamped(hsl.1, old(self).color_params().value().hsl().1),
                ColorParams::channel_clamped(hsl.2, old(self).color_params().value().hsl().2),
            ),
            final(self).color_params().value().bounded(),
            final(self).color_params().value().flags() == old(self).color_params().value().flags(),
            final(self).color_params().dirty(),
            final(self).viewport() == old(self).viewport(),
            final(self).coordinates() == old(self).coordinates(),
            final(self).iterations() == old(self).iterations(),
    {
        let changed = self.color_params.set_hsl(hsl);
        self.color_params.set(changed);
    }

    /// Sets the link of each colour channel.
    pub fn set_hsl_link(&mut self, hsl_link: (bool, bool, bool))
        ensures
            final(self).color_params().value().link() == hsl_link,
            final(self).color_params().value().flags() == (
                ColorParams::flag(hsl_link.0),
                ColorParams::flag(hsl_link.1),
                ColorParams::flag(hsl_link.2),
            ),
            final(self).color_params().value().hsl() == old(self).color_params().value().hsl(),
            final(self).color_params().dirty(),
            final(self).viewport() == old(self).viewport(),
            final(self).coordinates() == old(self).coordinates(),
            final(self).iterations() == old(self).iterations(),
    {
        let changed = self.color_params.set_link(hsl_link);
        self.color_params.set(changed);
    }

    /// The panel shows a colour of which a channel is a number and differs in
    /// value from the scene's.
    pub open spec fn asks_color(self, controls: Controls) -> bool {
        !Self::same_hsl(self.color_params().value(), controls.color)
    }

    /// The panel shows links that differ from the scene's.
    pub open spec fn asks_link(self, controls: Controls) -> bool {
        self.color_params().value().link() != controls.color_linked
    }

    /// The panel shows an iteration count that differs from the scene's cap.
    pub open spec fn asks_iterations(self, controls: Controls) -> bool {
        self.iterations().value().value() != controls.iterations
    }

    /// Takes over what the panel asks for, and touches only the stores whose
    /// value the panel does not show already: the colour where a channel
    /// differs in value, the links where one differs, the iteration cap where
    /// the count differs.
    pub fn apply_controls(&mut self, controls: &Controls)
        ensures
            final(self).viewport() == old(self).viewport(),
            final(self).coordinates() == old(self).coordinates(),
            !old(self).asks_color(*controls) && !old(self).asks_link(*controls) ==> final(
                self).color_params() == old(self).color_params(),
            final(self).color_params().dirty() == (old(self).color_params().dirty() || old(
                self).asks_color(*controls) || old(self).asks_link(*controls)),
            old(self).asks_color(*controls) ==> final(self).color_params().value().hsl() == (
                ColorParams::channel_clamped(
                    controls.color.0,
                    old(self).color_params().value().hsl().0,
                ),
                ColorParams::channel_clamped(
                    controls.color.1,
                    old(self).color_params().value().hsl().1,
                ),
                ColorParams::channel_clamped(
                    controls.color.2,
                    old(self).color_params().value().hsl().2,
                ),
            ),
            !old(self).asks_color(*controls) ==> final(self).color_params().value().hsl() == old(
                self).color_params().value().hsl(),
            old(self).asks_link(*controls) ==> final(self).color_params().value().flags() == (
                ColorParams::flag(controls.color_linked.0),
                ColorParams::flag(controls.color_linked.1),
                ColorParams::flag(controls.color_linked.2),
            ),
            !old(self).asks_link(*controls) ==> final(self).color_params().value().flags() == old(
                self).color_params().value().flags(),
            !old(self).asks_iterations(*controls) ==> final(self).iterations() == old(
                self).iterations(),
            old(self).asks_iterations(*controls) ==> final(self).iterations().dirty() && final(
                self).iterations().value().value() == Iterations::clamped(controls.iterations),
    {
        let color_params = *self.get_color_params();
        let (hue, saturation, lightness) = color_params.get_hsl();
        let same_hue = controls.color.0.is_nan() || hue.eq_value(controls.color.0);
        let same_saturation = controls.color.1.is_nan() || saturation.eq_value(controls.color.1);
        let same_lightness = controls.color.2.is_nan() || lightness.eq_value(controls.color.2);
        if !same_hue || !same_saturation || !same_lightness {
            self.set_hsl(controls.color);
        }
        let (hue_link, saturation_link, lightness_link) = color_params.get_link();
        if hue_link != controls.color_linked.0 || saturation_link != controls.color_linked.1
            || lightness_link != controls.color_linked.2 {
            self.set_hsl_link(controls.color_linked);
        }
        if **self.iterations != controls.iterations {
            self.set_iterations(controls.iterations);
        }
    }

    /// The frame that shows the scene as it stands: a write for every store
    /// whose value has changed since the frame before, and none for the
    /// others; the four bind groups at their slots; one draw of six vertices.
    pub fn draw(&mut self) -> (frame: Frame)
        ensures
            final(self).viewport() == old(self).viewport().after(Access::Upload),
            final(self).coordinates() == old(self).coordinates().after(Access::Upload),
            final(self).iterations() == old(self).iterations().after(Access::Upload),
            final(self).color_params() == old(self).color_params().after(Access::Upload),
            final(self).viewport().value() == old(self).viewport().value(),
            final(self).coordinates().value() == old(self).coordinates().value(),
            final(self).iterations().value() == old(self).iterations().value(),
            final(self).color_params().value() == old(self).color_params().value(),
            final(self).stale() =~= Seq::<u32>::empty(),
            old(self).sound(),
            frame.writes@.len() == old(self).stale().len(),
            forall|i: int|
                0 <= i < frame.writes@.len() ==> (#[trigger] frame.writes@[i]).binding
                    == old(self).stale()[i],
            forall|i: int|
                0 <= i < frame.writes@.len() ==> memory_image(
                    (#[trigger] frame.writes@[i]).bytes@,
                    old(self).block(old(self).stale()[i]),
                ),
            frame.bind_groups@ == seq![
                VIEWPORT_BINDING,
                COORDINATES_BINDING,
                ITERATIONS_BINDING,
                COLOR_BINDING,
            ],
            frame.vertices == VERTICES,
            frame.instances == INSTANCES,
    {
        self.soundness();
        let mut writes: Vec<BufferWrite> = Vec::new();
        if let Some(bytes) = self.viewport.upload() {
            writes.push(BufferWrite { binding: VIEWPORT_BINDING, bytes });
        }
        if let Some(bytes) = self.coordinates.upload() {
            writes.push(BufferWrite { binding: COORDINATES_BINDING, bytes });
        }
        if let Some(bytes) = self.iterations.upload() {
            writes.push(BufferWrite { binding: ITERATIONS_BINDING, bytes });
        }
        if let Some(bytes) = self.color_params.upload() {
            writes.push(BufferWrite { binding: COLOR_BINDING, bytes });
        }
        Frame {
            writes,
            bind_groups: [VIEWPORT_BINDING, COORDINATES_BINDING, ITERATIONS_BINDING, COLOR_BINDING],
            vertices: VERTICES,
            instances: INSTANCES,
        }
    }
}

/// In a sound scene every word of the viewport, of the view and of the three
/// colour channels is a finite number.
pub proof fn sound_blocks_are_finite(scene: Scene)
    requires
        scene.sound(),
    ensures
        forall|i: int| 0 <= i < 3 ==> word(#[trigger] scene.block(VIEWPORT_BINDING)[i]).finite(),
        forall|i: int| 0 <= i < 3 ==> word(#[trigger] scene.block(COORDINATES_BINDING)[i]).finite(),
        forall|i: int| 0 <= i < 3 ==> word(#[trigger] scene.block(COLOR_BINDING)[i]).finite(),
{
    let viewport = scene.viewport().value();
    let view = scene.coordinates().value();
    let color = scene.color_params().value();
    within_is_finite(viewport.half_x(), word(HALF_MIN), word(HALF_MAX));
    within_is_finite(viewport.half_y(), word(HALF_MIN), word(HALF_MAX));
    within_is_finite(viewport.aspect(), word(RATIO_MIN), word(RATIO_MAX));
    within_is_finite(view.center().0, word(CENTER_MIN), word(CENTER_MAX));
    within_is_finite(view.center().1, word(CENTER_MIN), word(CENTER_MAX));
    within_is_finite(view.zoom(), word(ZOOM_MIN), word(ZOOM_MAX));
    within_is_finite(color.hsl().0, word(CHANNEL_MIN), word(CHANNEL_MAX));
    within_is_finite(color.hsl().1, word(CHANNEL_MIN), word(CHANNEL_MAX));
    within_is_finite(color.hsl().2, word(CHANNEL_MIN), word(CHANNEL_MAX));
}

} // verus!
