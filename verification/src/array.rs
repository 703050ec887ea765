//! An array of 2D color textures that can be rendered into.

use vstd::prelude::*;
use vstd::slice::slice_to_vec;
use crate::command::Command;
use crate::format::{format_from_data_type, TexelType};
use crate::mipmap::{calculate_number_of_mip_maps, mip_maps_defined};
use crate::pixels::{check_data_length, data_length_matches, flip_y, flippable, flipped};
use crate::sampling::{Interpolation, Mipmap, Wrapping};

verus! {

/// An image in main memory together with the way it is to be sampled.
pub struct CpuTexture<T> {
    /// The texels, row by row, `width` texels to a row.
    pub data: Vec<T>,
    /// The type of the texels in `data`.
    pub data_type: TexelType,
    /// The number of texels in a row.
    pub width: u32,
    /// The number of rows.
    pub height: u32,
    /// The filter used where the texture is shown smaller than it is.
    pub min_filter: Interpolation,
    /// The filter used where the texture is shown larger than it is.
    pub mag_filter: Interpolation,
    /// The settings of the mip chain, if one is wanted.
    pub mipmap: Option<Mipmap>,
    /// What the texture yields to the left and right of the unit square.
    pub wrap_s: Wrapping,
    /// What the texture yields above and below the unit square.
    pub wrap_t: Wrapping,
}

/// What is known in main memory of an array of 2D color textures on a
/// graphics context: its extents, the number of levels of its mip chain and
/// the size of its texels. Its operations return the commands that carry
/// them out on the context.
pub struct Texture2DArray {
    width: u32,
    height: u32,
    depth: u32,
    number_of_mip_maps: u32,
    data_byte_size: usize,
}

/// Some layers of a texture array, at one mip level, as the colors that a
/// render pass writes.
pub struct ColorTarget<'a> {
    /// The texture array that is written.
    pub texture: &'a Texture2DArray,
    /// The layers that are written, one for each color output.
    pub layers: &'a [u32],
    /// The level that is written. Without one, the full size level is
    /// written and the mip chain is made anew after each write.
    pub mip_level: Option<u32>,
}

/// Whether each of the buffers in `data` holds exactly one layer of `width`
/// by `height` texels of type `data_type`.
pub open spec fn layers_match<T>(data_type: TexelType, width: u32, height: u32, data: Seq<&[T]>) -> bool {
    forall|i: int|
        0 <= i < data.len() ==> data_length_matches(
            data_type,
            width as nat,
            height as nat,
            1,
            data_type.spec_byte_size(),
            (#[trigger] data[i])@.len(),
        )
}

/// Whether `pixels` holds, for each of the buffers in `data`, the image of
/// `width` by `height` texels in it with the order of its rows reversed.
pub open spec fn holds_flipped<T>(pixels: Seq<Vec<T>>, data: Seq<&[T]>, width: u32, height: u32) -> bool {
    &&& pixels.len() == data.len()
    &&& forall|i: int|
        0 <= i < data.len() ==> (#[trigger] pixels[i])@ == flipped(
            data[i]@,
            width as nat,
            height as nat,
        )
}

/// A buffer with the size in bytes of one layer, of texels as large as those
/// of the layer, holds as many texels as the layer.
pub proof fn lemma_matching_layer_is_exact(data_type: TexelType, width: nat, height: nat, data_len: nat)
    requires
        data_length_matches(data_type, width, height, 1, data_type.spec_byte_size(), data_len),
    ensures
        data_len == width * height,
        flippable(data_len, width, height),
{
    let size = data_type.spec_byte_size();
    assert(size >= 1);
    assert(data_len == width * height) by (nonlinear_arith)
        requires
            width * height * 1 * size == data_len * size,
            size >= 1,
    ;
}

/// Tells whether each of the buffers in `data` holds exactly one layer of
/// `width` by `height` texels of type `data_type`.
pub fn layers_fit<T>(data_type: TexelType, width: u32, height: u32, data: &[&[T]]) -> (fit: bool)
    ensures
        fit == layers_match(data_type, width, height, data@),
{
    let mut i: usize = 0;
    while i < data.len()
        invariant
            0 <= i <= data@.len(),
            forall|k: int|
                0 <= k < i ==> data_length_matches(
                    data_type,
                    width as nat,
                    height as nat,
                    1,
                    data_type.spec_byte_size(),
                    (#[trigger] data@[k])@.len(),
                ),
        decreases data@.len() - i,
    {
        if !check_data_length(data_type, width, height, 1, data_type.byte_size(), data[i].len()) {
            return false;
        }
        i += 1;
    }
    true
}

impl Texture2DArray {
    #[verifier::type_invariant]
    spec fn well_formed(&self) -> bool {
        &&& self.number_of_mip_maps >= 1
        &&& 1 <= self.data_byte_size <= 16
    }

    /// The width of this texture.
    pub closed spec fn spec_width(&self) -> u32 {
        self.width
    }

    /// The height of this texture.
    pub closed spec fn spec_height(&self) -> u32 {
        self.height
    }

    /// The number of layers.
    pub closed spec fn spec_depth(&self) -> u32 {
        self.depth
    }

    /// The number of mip maps of this texture.
    pub closed spec fn spec_number_of_mip_maps(&self) -> u32 {
        self.number_of_mip_maps
    }

    /// The size in bytes of one texel of this texture.
    pub closed spec fn spec_data_byte_size(&self) -> usize {
        self.data_byte_size
    }

    /// Whether this is the texture array that is made from the given
    /// description: it has the given extents, the texel size of `data_type`
    /// and as many levels as `data_type`, `mipmap` and the extents of a layer
    /// give.
    pub open spec fn describes(
        &self,
        data_type: TexelType,
        width: u32,
        height: u32,
        depth: u32,
        mipmap: Option<Mipmap>,
    ) -> bool {
        &&& self.width() == width
        &&& self.height() == height
        &&& self.depth() == depth
        &&& self.number_of_mip_maps() == crate::mipmap::number_of_mip_maps(
            data_type,
            mipmap,
            width,
            height,
            None,
        )
        &&& self.data_byte_size() == data_type.spec_byte_size()
    }

    /// The commands that make the mip chain anew: none if the full size
    /// level is the only one.
    pub open spec fn mip_map_commands(&self) -> Seq<Command> {
        if self.number_of_mip_maps() > 1 {
            seq![Command::Bind, Command::GenerateMipMaps]
        } else {
            seq![]
        }
    }

    /// The commands that prepare the texture array for use: binding it and
    /// setting how it is sampled. A texture array with a single level is
    /// sampled without mip mapping, whatever `mipmap` asks for.
    pub open spec fn setup_commands(
        &self,
        min_filter: Interpolation,
        mag_filter: Interpolation,
        mipmap: Option<Mipmap>,
        wrap_s: Wrapping,
        wrap_t: Wrapping,
    ) -> Seq<Command> {
        seq![
            Command::Bind,
            Command::SetParameters {
                min_filter,
                mag_filter,
                mipmap: if self.number_of_mip_maps() == 1 {
                    None
                } else {
                    mipmap
                },
                wrap_s,
                wrap_t,
            },
        ]
    }

    /// The command that reserves the storage of the texture array.
    pub open spec fn storage_commands(&self, data_type: TexelType) -> Seq<Command> {
        seq![
            Command::AllocateStorage {
                levels: self.number_of_mip_maps(),
                data_type,
                width: self.width(),
                height: self.height(),
                depth: self.depth(),
            },
        ]
    }

    /// The commands that create the texture array without contents: setup,
    /// storage and the mip chain.
    pub open spec fn creation_commands(
        &self,
        data_type: TexelType,
        min_filter: Interpolation,
        mag_filter: Interpolation,
        mipmap: Option<Mipmap>,
        wrap_s: Wrapping,
        wrap_t: Wrapping,
    ) -> Seq<Command> {
        self.setup_commands(min_filter, mag_filter, mipmap, wrap_s, wrap_t)
            + self.storage_commands(data_type) + self.mip_map_commands()
    }

    /// Whether layer `layer` can be filled with `data_len` texels of type
    /// `data_type`: the layer exists, the data has the size in bytes of one
    /// layer, and an image of the layer's extents lies within the data.
    pub open spec fn accepts_layer(&self, data_type: TexelType, layer: u32, data_len: nat) -> bool {
        &&& layer < self.depth()
        &&& data_length_matches(
            data_type,
            self.width() as nat,
            self.height() as nat,
            1,
            self.data_byte_size() as nat,
            data_len,
        )
        &&& flippable(data_len, self.width() as nat, self.height() as nat)
    }

    /// The commands that fill layer `layer` with texels of type `data_type`:
    /// the upload of the layer's pixels, then the mip chain.
    pub open spec fn layer_commands(&self, data_type: TexelType, layer: u32) -> Seq<Command> {
        seq![
            Command::Bind,
            Command::UploadLayer {
                layer,
                width: self.width(),
                height: self.height(),
                format: data_type.format,
                channel_type: data_type.channel,
            },
        ] + self.mip_map_commands()
    }

    /// Whether the first layers of the texture array can be filled with the
    /// given data, one buffer for each layer.
    pub open spec fn accepts_layers<T>(&self, data_type: TexelType, data: Seq<&[T]>) -> bool {
        &&& data.len() <= self.depth()
        &&& forall|i: int|
            0 <= i < data.len() ==> self.accepts_layer(data_type, i as u32, (#[trigger] data[i])@.len())
    }

    /// The commands that fill the first `count` layers, in the order of the
    /// layers.
    pub open spec fn fill_commands(&self, data_type: TexelType, count: nat) -> Seq<Command>
        decreases count,
    {
        if count == 0 {
            seq![]
        } else {
            self.fill_commands(data_type, (count - 1) as nat) + self.layer_commands(
                data_type,
                (count - 1) as u32,
            )
        }
    }

    /// The width of this texture.
    #[verifier::when_used_as_spec(spec_width)]
    pub fn width(&self) -> (width: u32)
        ensures
            width == self.width(),
    {
        self.width
    }

    /// The height of this texture.
    #[verifier::when_used_as_spec(spec_height)]
    pub fn height(&self) -> (height: u32)
        ensures
            height == self.height(),
    {
        self.height
    }

    /// The number of layers.
    #[verifier::when_used_as_spec(spec_depth)]
    pub fn depth(&self) -> (depth: u32)
        ensures
            depth == self.depth(),
    {
        self.depth
    }

    /// The number of mip maps of this texture, the full size level included.
    #[verifier::when_used_as_spec(spec_number_of_mip_maps)]
    pub fn number_of_mip_maps(&self) -> (levels: u32)
        ensures
            levels == self.number_of_mip_maps(),
            levels >= 1,
    {
        proof {
            use_type_invariant(self);
        }
        self.number_of_mip_maps
    }

    /// The size in bytes of one texel of this texture.
    #[verifier::when_used_as_spec(spec_data_byte_size)]
    pub fn data_byte_size(&self) -> (bytes: usize)
        ensures
            bytes == self.data_byte_size(),
            1 <= bytes <= 16,
    {
        proof {
            use_type_invariant(self);
        }
        self.data_byte_size
    }

    /// The commands that make the mip chain anew after the full size level
    /// has changed.
    pub fn generate_mip_maps(&self) -> (commands: Vec<Command>)
        ensures
            commands@ == self.mip_map_commands(),
    {
        let mut commands: Vec<Command> = Vec::new();
        if self.number_of_mip_maps > 1 {
            commands.push(Command::Bind);
            commands.push(Command::GenerateMipMaps);
        }
        assert(commands@ =~= self.mip_map_commands());
        commands
    }

    /// The command that attaches level `mip_level` of layer `layer` to color
    /// output `channel` of the framebuffer that is drawn to.
    pub fn bind_as_color_target(&self, layer: u32, channel: u32, mip_level: u32) -> (command:
        Command)
        ensures
            command == (Command::AttachLayer { layer, channel, mip_level }),
    {
        Command::AttachLayer { layer, channel, mip_level }
    }

    /// Returns a [`ColorTarget`] for the given layers and mip level of this
    /// texture array. Without a mip level the full size level is written and
    /// the mip chain is made anew after a write; with one, that level is
    /// written and the other levels are left as they are.
    pub fn as_color_target<'a>(&'a self, layers: &'a [u32], mip_level: Option<u32>) -> (target:
        ColorTarget<'a>)
        ensures
            target.texture == self,
            target.layers@ == layers@,
            target.mip_level == mip_level,
    {
        ColorTarget { texture: self, layers, mip_level }
    }

    /// Tells whether layer `layer` can be filled with `data_len` texels of
    /// type `data_type`.
    pub fn can_fill_layer(&self, data_type: TexelType, layer: u32, data_len: usize) -> (accepted:
        bool)
        ensures
            accepted == self.accepts_layer(data_type, layer, data_len as nat),
    {
        if layer >= self.depth {
            return false;
        }
        if !check_data_length(data_type, self.width, self.height, 1, self.data_byte_size, data_len) {
            return false;
        }
        assert(self.width * self.height <= 0xffff_ffff * 0xffff_ffff) by (nonlinear_arith)
            requires
                self.width <= 0xffff_ffff,
                self.height <= 0xffff_ffff,
        ;
        let area: u64 = (self.width as u64) * (self.height as u64);
        self.height < 2 || self.width < 1 || area <= data_len as u64
    }

    /// Tells whether the first layers of the texture array can be filled
    /// with the given data, one buffer for each layer.
    pub fn can_fill<T>(&self, data_type: TexelType, data: &[&[T]]) -> (accepted: bool)
        ensures
            accepted == self.accepts_layers(data_type, data@),
    {
        if data.len() > self.depth as usize {
            return false;
        }
        let mut i: usize = 0;
        while i < data.len()
            invariant
                0 <= i <= data@.len() <= self.depth(),
                forall|k: int|
                    0 <= k < i ==> self.accepts_layer(
                        data_type,
                        k as u32,
                        (#[trigger] data@[k])@.len(),
                    ),
            decreases data@.len() - i,
        {
            if !self.can_fill_layer(data_type, i as u32, data[i].len()) {
                return false;
            }
            i += 1;
        }
        true
    }

    /// Fills layer `layer` with the given pixels. Returns the pixels in the
    /// row order of the graphics context, which is the reverse of theirs,
    /// and the commands that upload them and make the mip chain anew.
    pub fn fill_layer<T: Copy>(&self, data_type: TexelType, layer: u32, data: &[T]) -> (filled: (
        Vec<T>,
        Vec<Command>,
    ))
        requires
            self.accepts_layer(data_type, layer, data@.len()),
        ensures
            filled.0@ == flipped(data@, self.width() as nat, self.height() as nat),
            filled.1@ == self.layer_commands(data_type, layer),
    {
        let mut pixels: Vec<T> = slice_to_vec(data);
        flip_y(pixels.as_mut_slice(), self.width as usize, self.height as usize);
        let mut commands: Vec<Command> = Vec::new();
        commands.push(Command::Bind);
        commands.push(
            Command::UploadLayer {
                layer,
                width: self.width,
                height: self.height,
                format: format_from_data_type(data_type),
                channel_type: data_type.channel,
            },
        );
        let mut rest: Vec<Command> = self.generate_mip_maps();
        commands.append(&mut rest);
        assert(commands@ =~= self.layer_commands(data_type, layer));
        (pixels, commands)
    }

    /// Fills the first layers of the texture array with the given pixels,
    /// one buffer for each layer. Returns for each layer its pixels in the
    /// row order of the graphics context, and the commands that upload them
    /// layer by layer, making the mip chain anew after each.
    pub fn fill<T: Copy>(&self, data_type: TexelType, data: &[&[T]]) -> (filled: (
        Vec<Vec<T>>,
        Vec<Command>,
    ))
        requires
            self.accepts_layers(data_type, data@),
        ensures
            holds_flipped(filled.0@, data@, self.width(), self.height()),
            filled.1@ == self.fill_commands(data_type, data@.len()),
    {
        let mut pixels: Vec<Vec<T>> = Vec::new();
        let mut commands: Vec<Command> = Vec::new();
        let mut i: usize = 0;
        while i < data.len()
            invariant
                0 <= i <= data@.len(),
                self.accepts_layers(data_type, data@),
                pixels@.len() == i,
                forall|k: int|
                    0 <= k < i ==> (#[trigger] pixels@[k])@ == flipped(
                        data@[k]@,
                        self.width() as nat,
                        self.height() as nat,
                    ),
                commands@ == self.fill_commands(data_type, i as nat),
            decreases data@.len() - i,
        {
            let layer: (Vec<T>, Vec<Command>) = self.fill_layer(data_type, i as u32, data[i]);
            let (layer_pixels, mut layer_commands) = layer;
            pixels.push(layer_pixels);
            commands.append(&mut layer_commands);
            i += 1;
        }
        (pixels, commands)
    }

    /// Creates a new texture array where it is up to the caller to reserve
    /// the storage and to transfer the pixels. Returns the texture array and
    /// the commands that create it: the texture array is bound and its
    /// sampling set, then come the commands that `callback` hands back, then
    /// the mip chain is made.
    pub fn new_unchecked(
        data_type: TexelType,
        width: u32,
        height: u32,
        depth: u32,
        min_filter: Interpolation,
        mag_filter: Interpolation,
        mipmap: Option<Mipmap>,
        wrap_s: Wrapping,
        wrap_t: Wrapping,
        callback: impl FnOnce(&Texture2DArray) -> Vec<Command>,
    ) -> (created: (Texture2DArray, Vec<Command>))
        requires
            mip_maps_defined(data_type, mipmap, width, height, None),
            forall|texture: Texture2DArray|
                texture.describes(data_type, width, height, depth, mipmap) ==> call_requires(
                    callback,
                    (&texture,),
                ),
        ensures
            created.0.describes(data_type, width, height, depth, mipmap),
            exists|issued: Vec<Command>|
                #[trigger] call_ensures(callback, (&created.0,), issued) && created.1@
                    == created.0.setup_commands(min_filter, mag_filter, mipmap, wrap_s, wrap_t)
                    + issued@ + created.0.mip_map_commands(),
    {
        let number_of_mip_maps: u32 = calculate_number_of_mip_maps(
            data_type,
            mipmap,
            width,
            height,
            None,
        );
        let texture = Texture2DArray {
            width,
            height,
            depth,
            number_of_mip_maps,
            data_byte_size: data_type.byte_size(),
        };
        let mut commands: Vec<Command> = Vec::new();
        commands.push(Command::Bind);
        commands.push(
            Command::SetParameters {
                min_filter,
                mag_filter,
                mipmap: if number_of_mip_maps == 1 {
                    None
                } else {
                    mipmap
                },
                wrap_s,
                wrap_t,
            },
        );
        assert(commands@ =~= texture.setup_commands(min_filter, mag_filter, mipmap, wrap_s, wrap_t));
        assert(texture.describes(data_type, width, height, depth, mipmap));
        let mut issued: Vec<Command> = callback(&texture);
        let ghost handed_back = issued;
        commands.append(&mut issued);
        let mut rest: Vec<Command> = texture.generate_mip_maps();
        commands.append(&mut rest);
        let created: (Texture2DArray, Vec<Command>) = (texture, commands);
        assert(call_ensures(callback, (&created.0,), handed_back));
        created
    }

    /// Creates a new array of `depth` 2D textures of `width` by `height`
    /// texels of type `data_type`, without contents. Returns the texture
    /// array and the commands that create it.
    pub fn new_empty(
        data_type: TexelType,
        width: u32,
        height: u32,
        depth: u32,
        min_filter: Interpolation,
        mag_filter: Interpolation,
        mipmap: Option<Mipmap>,
        wrap_s: Wrapping,
        wrap_t: Wrapping,
    ) -> (created: (Texture2DArray, Vec<Command>))
        requires
            mip_maps_defined(data_type, mipmap, width, height, None),
        ensures
            created.0.describes(data_type, width, height, depth, mipmap),
            created.1@ == created.0.creation_commands(
                data_type,
                min_filter,
                mag_filter,
                mipmap,
                wrap_s,
                wrap_t,
            ),
    {
        let reserve = |texture: &Texture2DArray| -> (issued: Vec<Command>)
            ensures
                issued@ == seq![
                    Command::AllocateStorage {
                        levels: texture.number_of_mip_maps(),
                        data_type,
                        width,
                        height,
                        depth,
                    },
                ],
            {
                let mut issued: Vec<Command> = Vec::new();
                issued.push(
                    Command::AllocateStorage {
                        levels: texture.number_of_mip_maps(),
                        data_type,
                        width,
                        height,
                        depth,
                    },
                );
                issued
            };
        let created: (Texture2DArray, Vec<Command>) = Self::new_unchecked(
            data_type,
            width,
            height,
            depth,
            min_filter,
            mag_filter,
            mipmap,
            wrap_s,
            wrap_t,
            reserve,
        );
        assert(created.1@ =~= created.0.creation_commands(
            data_type,
            min_filter,
            mag_filter,
            mipmap,
            wrap_s,
            wrap_t,
        ));
        created
    }

    /// Creates a new texture array that is sampled as `cpu_texture` asks and
    /// holds the given pixels, one buffer for each layer. Returns the
    /// texture array, for each layer its pixels in the row order of the
    /// graphics context, and the commands that create and then fill it.
    pub fn new_with_data<T: Copy>(cpu_texture: &CpuTexture<T>, data: &[&[T]]) -> (created: (
        Texture2DArray,
        Vec<Vec<T>>,
        Vec<Command>,
    ))
        requires
            data@.len() <= u32::MAX,
            mip_maps_defined(
                cpu_texture.data_type,
                cpu_texture.mipmap,
                cpu_texture.width,
                cpu_texture.height,
                None,
            ),
            layers_match(cpu_texture.data_type, cpu_texture.width, cpu_texture.height, data@),
        ensures
            created.0.describes(
                cpu_texture.data_type,
                cpu_texture.width,
                cpu_texture.height,
                data@.len() as u32,
                cpu_texture.mipmap,
            ),
            holds_flipped(created.1@, data@, cpu_texture.width, cpu_texture.height),
            created.2@ == created.0.creation_commands(
                cpu_texture.data_type,
                cpu_texture.min_filter,
                cpu_texture.mag_filter,
                cpu_texture.mipmap,
                cpu_texture.wrap_s,
                cpu_texture.wrap_t,
            ) + created.0.fill_commands(cpu_texture.data_type, data@.len()),
    {
        let made: (Texture2DArray, Vec<Command>) = Self::new_empty(
            cpu_texture.data_type,
            cpu_texture.width,
            cpu_texture.height,
            data.len() as u32,
            cpu_texture.min_filter,
            cpu_texture.mag_filter,
            cpu_texture.mipmap,
            cpu_texture.wrap_s,
            cpu_texture.wrap_t,
        );
        let (texture, mut commands) = made;
        proof {
            assert forall|i: int| 0 <= i < data@.len() implies texture.accepts_layer(
                cpu_texture.data_type,
                i as u32,
                (#[trigger] data@[i])@.len(),
            ) by {
                lemma_matching_layer_is_exact(
                    cpu_texture.data_type,
                    cpu_texture.width as nat,
                    cpu_texture.height as nat,
                    data@[i]@.len(),
                );
            }
        }
        let filled: (Vec<Vec<T>>, Vec<Command>) = texture.fill(cpu_texture.data_type, data);
        let (pixels, mut fill_commands) = filled;
        commands.append(&mut fill_commands);
        (texture, pixels, commands)
    }

    /// Creates a new texture array from the given images, one for each
    /// layer. The array is sampled as the first image asks; all of the
    /// images must hold texels of the same type and have the same width and
    /// height. Returns the texture array, for each layer its pixels in the
    /// row order of the graphics context, and the commands that create and
    /// then fill it.
    pub fn new<T: Copy>(cpu_textures: &[&CpuTexture<T>]) -> (created: (
        Texture2DArray,
        Vec<Vec<T>>,
        Vec<Command>,
    ))
        requires
            1 <= cpu_textures@.len() <= u32::MAX,
            mip_maps_defined(
                cpu_textures@[0].data_type,
                cpu_textures@[0].mipmap,
                cpu_textures@[0].width,
                cpu_textures@[0].height,
                None,
            ),
            forall|i: int|
                0 <= i < cpu_textures@.len() ==> (#[trigger] cpu_textures@[i]).data_type
                    == cpu_textures@[0].data_type,
            forall|i: int|
                0 <= i < cpu_textures@.len() ==> data_length_matches(
                    cpu_textures@[0].data_type,
                    cpu_textures@[0].width as nat,
                    cpu_textures@[0].height as nat,
                    1,
                    cpu_textures@[0].data_type.spec_byte_size(),
                    (#[trigger] cpu_textures@[i]).data@.len(),
                ),
        ensures
            created.0.describes(
                cpu_textures@[0].data_type,
                cpu_textures@[0].width,
                cpu_textures@[0].height,
                cpu_textures@.len() as u32,
                cpu_textures@[0].mipmap,
            ),
            created.1@.len() == cpu_textures@.len(),
            forall|i: int|
                0 <= i < cpu_textures@.len() ==> (#[trigger] created.1@[i])@ == flipped(
                    cpu_textures@[i].data@,
                    cpu_textures@[0].width as nat,
                    cpu_textures@[0].height as nat,
                ),
            created.2@ == created.0.creation_commands(
                cpu_textures@[0].data_type,
                cpu_textures@[0].min_filter,
                cpu_textures@[0].mag_filter,
                cpu_textures@[0].mipmap,
                cpu_textures@[0].wrap_s,
                cpu_textures@[0].wrap_t,
            ) + created.0.fill_commands(cpu_textures@[0].data_type, cpu_textures@.len()),
    {
        let cpu_texture: &CpuTexture<T> = cpu_textures[0];
        let mut data: Vec<&[T]> = Vec::new();
        let mut i: usize = 0;
        while i < cpu_textures.len()
            invariant
                0 <= i <= cpu_textures@.len(),
                data@.len() == i,
                forall|k: int| 0 <= k < i ==> (#[trigger] data@[k])@ == cpu_textures@[k].data@,
            decreases cpu_textures@.len() - i,
        {
            data.push(cpu_textures[i].data.as_slice());
            i += 1;
        }
        Self::new_with_data(cpu_texture, data.as_slice())
    }
}

impl<'a> ColorTarget<'a> {
    /// The level that is written: the chosen one, or the full size level
    /// where none was chosen.
    pub open spec fn spec_level(&self) -> u32 {
        match self.mip_level {
            Some(level) => level,
            None => 0,
        }
    }

    /// The commands that attach the layers of the target to the color
    /// outputs: the layer at position `i` goes to output `i`.
    pub open spec fn attach_commands(&self) -> Seq<Command> {
        Seq::new(
            self.layers@.len(),
            |i: int|
                Command::AttachLayer {
                    layer: self.layers@[i],
                    channel: i as u32,
                    mip_level: self.spec_level(),
                },
        )
    }

    /// The commands that follow a write to the target: the mip chain of the
    /// texture array is made anew if the full size level was written because
    /// no level was chosen, and left alone otherwise.
    pub open spec fn after_write_commands(&self) -> Seq<Command> {
        if self.mip_level is None {
            self.texture.mip_map_commands()
        } else {
            seq![]
        }
    }

    /// The level that is written: the chosen one, or the full size level
    /// where none was chosen.
    #[verifier::when_used_as_spec(spec_level)]
    pub fn level(&self) -> (level: u32)
        ensures
            level == self.spec_level(),
    {
        match self.mip_level {
            Some(level) => level,
            None => 0,
        }
    }

    /// The commands that attach the layers of the target to the color
    /// outputs of the framebuffer that is drawn to.
    pub fn bind(&self) -> (commands: Vec<Command>)
        requires
            self.layers@.len() <= u32::MAX,
        ensures
            commands@ == self.attach_commands(),
    {
        let level: u32 = self.level();
        let mut commands: Vec<Command> = Vec::new();
        let mut channel: usize = 0;
        while channel < self.layers.len()
            invariant
                0 <= channel <= self.layers@.len() <= u32::MAX,
                level == self.spec_level(),
                commands@.len() == channel,
                forall|i: int| 0 <= i < channel ==> commands@[i] == self.attach_commands()[i],
            decreases self.layers@.len() - channel,
        {
            commands.push(
                self.texture.bind_as_color_target(self.layers[channel], channel as u32, level),
            );
            channel += 1;
        }
        assert(commands@ =~= self.attach_commands());
        commands
    }

    /// The commands that follow a write to the target.
    pub fn generate_mip_maps(&self) -> (commands: Vec<Command>)
        ensures
            commands@ == self.after_write_commands(),
    {
        match self.mip_level {
            Some(_) => Vec::new(),
            None => self.texture.generate_mip_maps(),
        }
    }
}

} // verus!
