//! Terrain tile addressing (cube face, level of detail, tile position) and the attachment
//! descriptors that name and shape the per-tile textures.

use vstd::prelude::*;
use crate::text::{
    debug_quoted, decimal, push_char, push_debug_quoted, push_decimal, push_signed_decimal,
    signed_decimal,
};

verus! {

/// A pair of signed tile indices.
#[derive(Clone, Copy, Debug, PartialEq, Eq, Hash, Structural)]
pub struct IVec2 {
    pub x: i32,
    pub y: i32,
}

impl IVec2 {
    /// The origin `(0, 0)`.
    pub fn zero() -> (v: IVec2)
        ensures
            v.x == 0,
            v.y == 0,
    {
        IVec2 { x: 0, y: 0 }
    }

    pub fn new(x: i32, y: i32) -> (v: IVec2)
        ensures
            v.x == x,
            v.y == y,
    {
        IVec2 { x, y }
    }
}

/// Identifies one tile of a terrain: the cube face, the level of detail and the tile
/// position on that level.
#[derive(Clone, Copy, Debug, PartialEq, Eq, Hash, Structural)]
pub struct TileCoordinate {
    pub face: u32,
    pub lod: u32,
    pub xy: IVec2,
}

/// Tiles of a terrain are grouped into directories of this many columns and rows.
pub const TILE_DIRECTORY_SPAN: i32 = 64;

/// Floor division (rounding towards negative infinity).
pub open spec fn floor_div(v: int, d: int) -> int {
    if v >= 0 {
        v / d
    } else {
        -((-v - 1) / d) - 1
    }
}

/// The parent of a tile: one level coarser, position halved (rounding down), or `None` at
/// level 0.
pub open spec fn spec_tile_parent(tile: TileCoordinate) -> Option<TileCoordinate> {
    if tile.lod == 0 {
        None
    } else {
        Some(
            TileCoordinate {
                face: tile.face,
                lod: (tile.lod - 1) as u32,
                xy: IVec2 {
                    x: floor_div(tile.xy.x as int, 2) as i32,
                    y: floor_div(tile.xy.y as int, 2) as i32,
                },
            },
        )
    }
}

/// `face_lod_x_y`, the name of a tile.
pub open spec fn tile_name(tile: TileCoordinate) -> Seq<char> {
    decimal(tile.face as nat) + seq!['_'] + decimal(tile.lod as nat) + seq!['_'] + signed_decimal(
        tile.xy.x as int,
    ) + seq!['_'] + signed_decimal(tile.xy.y as int)
}

/// `lod/gx_gy/face_lod_x_y.tif`, where `gx`, `gy` are the directory group of the tile.
pub open spec fn tile_relative_path(tile: TileCoordinate) -> Seq<char> {
    decimal(tile.lod as nat) + seq!['/'] + signed_decimal(
        floor_div(tile.xy.x as int, TILE_DIRECTORY_SPAN as int),
    ) + seq!['_'] + signed_decimal(floor_div(tile.xy.y as int, TILE_DIRECTORY_SPAN as int))
        + seq!['/'] + tile_name(tile) + seq!['.', 't', 'i', 'f']
}

/// Floor division of a tile index by a positive divisor.
pub fn floor_div_i32(v: i32, d: i32) -> (r: i32)
    requires
        d > 0,
    ensures
        r == floor_div(v as int, d as int),
{
    if v >= 0 {
        v / d
    } else {
        let m: i64 = (-(v as i64)) - 1;
        let q: i64 = m / (d as i64);
        assert(0 <= q <= m);
        (-q - 1) as i32
    }
}

impl TileCoordinate {
    pub open spec fn spec_invalid() -> TileCoordinate {
        TileCoordinate { face: u32::MAX, lod: u32::MAX, xy: IVec2 { x: i32::MAX, y: i32::MAX } }
    }

    /// The sentinel that marks "no tile".
    pub fn invalid() -> (tile: TileCoordinate)
        ensures
            tile == Self::spec_invalid(),
    {
        TileCoordinate { face: u32::MAX, lod: u32::MAX, xy: IVec2 { x: i32::MAX, y: i32::MAX } }
    }

    pub fn new(face: u32, lod: u32, xy: IVec2) -> (tile: TileCoordinate)
        ensures
            tile.face == face,
            tile.lod == lod,
            tile.xy == xy,
    {
        TileCoordinate { face, lod, xy }
    }

    /// The tile one level coarser that contains this tile, or `None` at level 0.
    pub fn parent(self) -> (parent: Option<TileCoordinate>)
        ensures
            parent == spec_tile_parent(self),
    {
        if self.lod == 0 {
            None
        } else {
            Some(
                TileCoordinate {
                    face: self.face,
                    lod: self.lod - 1,
                    xy: IVec2 { x: floor_div_i32(self.xy.x, 2), y: floor_div_i32(self.xy.y, 2) },
                },
            )
        }
    }

    /// The tile name `face_lod_x_y` (the `Display` form).
    pub fn name(&self) -> (s: String)
        ensures
            s@ == tile_name(*self),
    {
        let mut s = String::new();
        push_decimal(&mut s, self.face as u64);
        push_char(&mut s, '_');
        push_decimal(&mut s, self.lod as u64);
        push_char(&mut s, '_');
        push_signed_decimal(&mut s, self.xy.x as i64);
        push_char(&mut s, '_');
        push_signed_decimal(&mut s, self.xy.y as i64);
        assert(s@ =~= tile_name(*self));
        s
    }

    /// The tile's file path relative to an attachment directory.
    pub fn relative_path(&self) -> (s: String)
        ensures
            s@ == tile_relative_path(*self),
    {
        let mut s = String::new();
        push_decimal(&mut s, self.lod as u64);
        push_char(&mut s, '/');
        push_signed_decimal(&mut s, floor_div_i32(self.xy.x, TILE_DIRECTORY_SPAN) as i64);
        push_char(&mut s, '_');
        push_signed_decimal(&mut s, floor_div_i32(self.xy.y, TILE_DIRECTORY_SPAN) as i64);
        push_char(&mut s, '/');
        let name = self.name();
        s.append(name.as_str());
        push_char(&mut s, '.');
        push_char(&mut s, 't');
        push_char(&mut s, 'i');
        push_char(&mut s, 'f');
        assert(s@ =~= tile_relative_path(*self));
        s
    }
}

/// The shape of a terrain. The shape parameters (side length, radii) are not part of this
/// type: the tile logic only depends on which kind of surface the terrain covers.
#[derive(Clone, Copy, Debug, PartialEq, Eq, Hash, Structural)]
pub enum TerrainShape {
    Plane,
    Sphere,
    Spheroid,
}

impl TerrainShape {
    /// The WGS84 ellipsoid.
    pub const WGS84: TerrainShape = TerrainShape::Spheroid;

    pub open spec fn spec_is_spherical(self) -> bool {
        self is Sphere || self is Spheroid
    }

    pub open spec fn spec_face_count(self) -> u32 {
        if self is Plane {
            1
        } else {
            6
        }
    }

    /// The terrain wraps a (possibly flattened) sphere.
    pub fn is_spherical(&self) -> (r: bool)
        ensures
            r == self.spec_is_spherical(),
    {
        match self {
            TerrainShape::Plane => false,
            _ => true,
        }
    }

    /// A plane has one face, a cube-mapped sphere six.
    pub fn face_count(&self) -> (r: u32)
        ensures
            r == self.spec_face_count(),
    {
        match self {
            TerrainShape::Plane => 1,
            _ => 6,
        }
    }
}

/// Names one attachment (texture layer) of a terrain.
#[derive(Clone, Debug, PartialEq, Eq, Hash)]
pub enum AttachmentLabel {
    Height,
    Custom(String),
    Empty(usize),
}

/// The mathematical content of an [`AttachmentLabel`].
pub enum AttachmentLabelView {
    Height,
    Custom(Seq<char>),
    Empty(usize),
}

impl View for AttachmentLabel {
    type V = AttachmentLabelView;

    open spec fn view(&self) -> AttachmentLabelView {
        match self {
            AttachmentLabel::Height => AttachmentLabelView::Height,
            AttachmentLabel::Custom(name) => AttachmentLabelView::Custom(name@),
            AttachmentLabel::Empty(i) => AttachmentLabelView::Empty(*i),
        }
    }
}

pub open spec fn albedo_chars() -> Seq<char> {
    seq!['a', 'l', 'b', 'e', 'd', 'o']
}

/// The label is the conventional `albedo` imagery attachment.
pub open spec fn is_albedo(label: AttachmentLabelView) -> bool {
    label matches AttachmentLabelView::Custom(name) && name == albedo_chars()
}

/// The directory name of an attachment: `height`, the custom name, or `empty_<index>`.
pub open spec fn label_name(label: AttachmentLabelView) -> Seq<char> {
    match label {
        AttachmentLabelView::Height => seq!['h', 'e', 'i', 'g', 'h', 't'],
        AttachmentLabelView::Custom(name) => name,
        AttachmentLabelView::Empty(i) => seq!['e', 'm', 'p', 't', 'y', '_'] + decimal(i as nat),
    }
}

/// The `Debug` form of a label: `Height`, `Custom("name")` or `Empty(index)`.
pub open spec fn label_debug(label: AttachmentLabelView) -> Seq<char> {
    match label {
        AttachmentLabelView::Height => seq!['H', 'e', 'i', 'g', 'h', 't'],
        AttachmentLabelView::Custom(name) => seq!['C', 'u', 's', 't', 'o', 'm', '('] + debug_quoted(name)
            + seq![')'],
        AttachmentLabelView::Empty(i) => seq!['E', 'm', 'p', 't', 'y', '('] + decimal(i as nat) + seq![')'],
    }
}

/// `s` is exactly `albedo`.
pub fn str_is_albedo(s: &String) -> (r: bool)
    ensures
        r == (s@ == albedo_chars()),
{
    let albedo = String::from_str("albedo");
    proof {
        reveal_strlit("albedo");
    }
    let r = *s == albedo;
    assert(albedo@ =~= albedo_chars());
    r
}

impl AttachmentLabel {
    /// The label is the conventional `albedo` imagery attachment.
    pub fn is_albedo(&self) -> (r: bool)
        ensures
            r == is_albedo(self@),
    {
        match self {
            AttachmentLabel::Custom(name) => str_is_albedo(name),
            _ => false,
        }
    }

    /// The label is `Height`.
    pub fn is_height(&self) -> (r: bool)
        ensures
            r == (self@ is Height),
    {
        match self {
            AttachmentLabel::Height => true,
            _ => false,
        }
    }

    /// Structural equality of two labels.
    pub fn same_as(&self, other: &AttachmentLabel) -> (r: bool)
        ensures
            r == (self@ == other@),
    {
        match (self, other) {
            (AttachmentLabel::Height, AttachmentLabel::Height) => true,
            (AttachmentLabel::Custom(a), AttachmentLabel::Custom(b)) => *a == *b,
            (AttachmentLabel::Empty(a), AttachmentLabel::Empty(b)) => *a == *b,
            _ => false,
        }
    }

    /// A copy of the label with the same content.
    pub fn duplicate(&self) -> (r: AttachmentLabel)
        ensures
            r@ == self@,
    {
        match self {
            AttachmentLabel::Height => AttachmentLabel::Height,
            AttachmentLabel::Custom(name) => AttachmentLabel::Custom(name.clone()),
            AttachmentLabel::Empty(i) => AttachmentLabel::Empty(*i),
        }
    }

    /// The `Debug` form of the label.
    pub fn debug_form(&self) -> (s: String)
        ensures
            s@ == label_debug(self@),
    {
        match self {
            AttachmentLabel::Height => {
                let s = String::from_str("Height");
                proof {
                    reveal_strlit("Height");
                }
                assert(s@ =~= label_debug(self@));
                s
            },
            AttachmentLabel::Custom(name) => {
                let mut s = String::from_str("Custom(");
                proof {
                    reveal_strlit("Custom(");
                }
                push_debug_quoted(&mut s, name.as_str());
                push_char(&mut s, ')');
                assert(s@ =~= label_debug(self@));
                s
            },
            AttachmentLabel::Empty(i) => {
                let mut s = String::from_str("Empty(");
                proof {
                    reveal_strlit("Empty(");
                }
                push_decimal(&mut s, *i as u64);
                push_char(&mut s, ')');
                assert(s@ =~= label_debug(self@));
                s
            },
        }
    }

    /// The directory name of the attachment (`String::from(&label)`).
    pub fn name(&self) -> (s: String)
        ensures
            s@ == label_name(self@),
    {
        match self {
            AttachmentLabel::Height => {
                let s = String::from_str("height");
                proof {
                    reveal_strlit("height");
                }
                assert(s@ =~= label_name(self@));
                s
            },
            AttachmentLabel::Custom(name) => name.clone(),
            AttachmentLabel::Empty(i) => {
                let mut s = String::from_str("empty_");
                proof {
                    reveal_strlit("empty_");
                }
                push_decimal(&mut s, *i as u64);
                assert(s@ =~= label_name(self@));
                s
            },
        }
    }
}

/// The texel format of an attachment.
#[derive(Clone, Copy, Debug, PartialEq, Eq, Hash, Structural)]
pub enum AttachmentFormat {
    Rgb8U,
    Rgba8U,
    Rg8U,
    R16U,
    R16I,
    Rg16U,
    R32F,
}

/// The texture layout of an attachment: texture size including the border on both sides,
/// border width, mip levels, mask flag and texel format.
#[derive(Clone, Copy, Debug, PartialEq, Eq, Hash, Structural)]
pub struct AttachmentConfig {
    pub texture_size: u32,
    pub border_size: u32,
    pub mip_level_count: u32,
    pub mask: bool,
    pub format: AttachmentFormat,
}

impl Default for AttachmentConfig {
    /// The default layout: 512 texels with a one-texel border, one mip level, 16-bit height.
    fn default() -> (c: AttachmentConfig)
        ensures
            c.texture_size == 512,
            c.border_size == 1,
            c.mip_level_count == 1,
            !c.mask,
            c.format == AttachmentFormat::R16U,
    {
        AttachmentConfig {
            texture_size: 512,
            border_size: 1,
            mip_level_count: 1,
            mask: false,
            format: AttachmentFormat::R16U,
        }
    }
}

impl AttachmentConfig {
    /// The texture size without the borders.
    pub fn center_size(&self) -> (r: u32)
        requires
            2 * self.border_size <= self.texture_size,
        ensures
            r == self.texture_size - 2 * self.border_size,
    {
        self.texture_size - 2 * self.border_size
    }
}

} // verus!
