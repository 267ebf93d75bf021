use crate::memory::MemoryError;
use crate::text::{decimal_string, decimal_text};
use vstd::prelude::*;

verus! {

/// `VK_IMAGE_TYPE_1D`.
pub const IMAGE_TYPE_1D: i32 = 0;
/// `VK_IMAGE_TYPE_2D`.
pub const IMAGE_TYPE_2D: i32 = 1;
/// `VK_IMAGE_TYPE_3D`.
pub const IMAGE_TYPE_3D: i32 = 2;

/// `VK_IMAGE_VIEW_TYPE_1D`.
pub const IMAGE_VIEW_TYPE_1D: i32 = 0;
/// `VK_IMAGE_VIEW_TYPE_2D`.
pub const IMAGE_VIEW_TYPE_2D: i32 = 1;
/// `VK_IMAGE_VIEW_TYPE_3D`.
pub const IMAGE_VIEW_TYPE_3D: i32 = 2;
/// `VK_IMAGE_VIEW_TYPE_CUBE`.
pub const IMAGE_VIEW_TYPE_CUBE: i32 = 3;
/// `VK_IMAGE_VIEW_TYPE_1D_ARRAY`.
pub const IMAGE_VIEW_TYPE_1D_ARRAY: i32 = 4;
/// `VK_IMAGE_VIEW_TYPE_2D_ARRAY`.
pub const IMAGE_VIEW_TYPE_2D_ARRAY: i32 = 5;
/// `VK_IMAGE_VIEW_TYPE_CUBE_ARRAY`.
pub const IMAGE_VIEW_TYPE_CUBE_ARRAY: i32 = 6;

/// A three dimensional extent (`VkExtent3D`).
#[derive(Copy, Clone, Debug, PartialEq, Eq, Structural)]
pub struct Extent3D {
    pub width: u32,
    pub height: u32,
    pub depth: u32,
}

/// A two dimensional extent (`VkExtent2D`).
#[derive(Copy, Clone, Debug, PartialEq, Eq, Structural)]
pub struct Extent2D {
    pub width: u32,
    pub height: u32,
}

/// The shape of an image: 1d or 2d (possibly layered) or 3d.
#[derive(Copy, Clone, Debug, PartialEq, Eq, Structural)]
pub enum ImageDimensions {
    Dim1d { width: u32, array_layers: u32 },
    Dim2d { width: u32, height: u32, array_layers: u32 },
    Dim3d { width: u32, height: u32, depth: u32 },
}

impl ImageDimensions {
    pub open spec fn spec_width(&self) -> u32 {
        match *self {
            ImageDimensions::Dim1d { width, .. } => width,
            ImageDimensions::Dim2d { width, .. } => width,
            ImageDimensions::Dim3d { width, .. } => width,
        }
    }

    pub open spec fn spec_height(&self) -> u32 {
        match *self {
            ImageDimensions::Dim1d { .. } => 1,
            ImageDimensions::Dim2d { height, .. } => height,
            ImageDimensions::Dim3d { height, .. } => height,
        }
    }

    pub open spec fn spec_depth(&self) -> u32 {
        match *self {
            ImageDimensions::Dim3d { depth, .. } => depth,
            _ => 1,
        }
    }

    pub open spec fn spec_array_layers(&self) -> u32 {
        match *self {
            ImageDimensions::Dim1d { array_layers, .. } => array_layers,
            ImageDimensions::Dim2d { array_layers, .. } => array_layers,
            ImageDimensions::Dim3d { .. } => 1,
        }
    }

    /// The number of texels, as an unbounded integer.
    pub open spec fn texel_count(&self) -> int {
        self.spec_width() * self.spec_height() * self.spec_depth() * self.spec_array_layers()
    }

    /// Dimensions in the form that `new_from_extent_and_layers` gives back unchanged:
    /// at least one layer, a 2d image taller than one texel, a 3d image deeper than one.
    pub open spec fn is_canonical(&self) -> bool {
        match *self {
            ImageDimensions::Dim1d { array_layers, .. } => array_layers >= 1,
            ImageDimensions::Dim2d { height, array_layers, .. } => height > 1 && array_layers >= 1,
            ImageDimensions::Dim3d { depth, .. } => depth > 1,
        }
    }

    /// Picks the variant that an extent and a layer count describe: layered images
    /// are 1d or 2d arrays (a depth is then dropped), single-layer ones are 3d when
    /// deeper than one texel, else 2d when taller than one, else 1d.
    pub open spec fn from_extent_and_layers(extent_3d: Extent3D, array_layers: u32) -> Self {
        if array_layers > 1 {
            if extent_3d.height > 1 {
                ImageDimensions::Dim2d { width: extent_3d.width, height: extent_3d.height, array_layers }
            } else {
                ImageDimensions::Dim1d { width: extent_3d.width, array_layers }
            }
        } else if extent_3d.depth > 1 {
            ImageDimensions::Dim3d { width: extent_3d.width, height: extent_3d.height, depth: extent_3d.depth }
        } else if extent_3d.height > 1 {
            ImageDimensions::Dim2d { width: extent_3d.width, height: extent_3d.height, array_layers: 1 }
        } else {
            ImageDimensions::Dim1d { width: extent_3d.width, array_layers: 1 }
        }
    }

    pub open spec fn spec_extent_3d(&self) -> Extent3D {
        Extent3D { width: self.spec_width(), height: self.spec_height(), depth: self.spec_depth() }
    }

    pub fn new_from_extent_and_layers(extent_3d: Extent3D, array_layers: u32) -> (r: Self)
        ensures
            r == Self::from_extent_and_layers(extent_3d, array_layers),
    {
        if array_layers > 1 {
            if extent_3d.height > 1 {
                Self::new_2d_array(extent_3d.width, extent_3d.height, array_layers)
            } else {
                Self::new_1d_array(extent_3d.width, array_layers)
            }
        } else {
            if extent_3d.depth > 1 {
                Self::new_3d(extent_3d.width, extent_3d.height, extent_3d.depth)
            } else if extent_3d.height > 1 {
                Self::new_2d(extent_3d.width, extent_3d.height)
            } else {
                Self::new_1d(extent_3d.width)
            }
        }
    }

    pub fn new_1d(width: u32) -> (r: Self)
        ensures
            r == (ImageDimensions::Dim1d { width, array_layers: 1 }),
    {
        Self::Dim1d { width, array_layers: 1 }
    }

    pub fn new_1d_array(width: u32, array_layers: u32) -> (r: Self)
        ensures
            r == (ImageDimensions::Dim1d { width, array_layers }),
    {
        Self::Dim1d { width, array_layers }
    }

    pub fn new_2d(width: u32, height: u32) -> (r: Self)
        ensures
            r == (ImageDimensions::Dim2d { width, height, array_layers: 1 }),
    {
        Self::Dim2d { width, height, array_layers: 1 }
    }

    pub fn new_2d_array(width: u32, height: u32, array_layers: u32) -> (r: Self)
        ensures
            r == (ImageDimensions::Dim2d { width, height, array_layers }),
    {
        Self::Dim2d { width, height, array_layers }
    }

    pub fn new_3d(width: u32, height: u32, depth: u32) -> (r: Self)
        ensures
            r == (ImageDimensions::Dim3d { width, height, depth }),
    {
        Self::Dim3d { width, height, depth }
    }

    #[verifier::when_used_as_spec(spec_width)]
    pub fn width(&self) -> (r: u32)
        ensures
            r == self.spec_width(),
    {
        match *self {
            ImageDimensions::Dim1d { width, .. } => width,
            ImageDimensions::Dim2d { width, .. } => width,
            ImageDimensions::Dim3d { width, .. } => width,
        }
    }

    /// 1 for 1d images.
    #[verifier::when_used_as_spec(spec_height)]
    pub fn height(&self) -> (r: u32)
        ensures
            r == self.spec_height(),
    {
        match *self {
            ImageDimensions::Dim1d { .. } => 1,
            ImageDimensions::Dim2d { height, .. } => height,
            ImageDimensions::Dim3d { height, .. } => height,
        }
    }

    pub fn width_height(&self) -> (r: [u32; 2])
        ensures
            r@ == seq![self.spec_width(), self.spec_height()],
    {
        [self.width(), self.height()]
    }

    /// 1 for 1d and 2d images.
    #[verifier::when_used_as_spec(spec_depth)]
    pub fn depth(&self) -> (r: u32)
        ensures
            r == self.spec_depth(),
    {
        match *self {
            ImageDimensions::Dim1d { .. } => 1,
            ImageDimensions::Dim2d { .. } => 1,
            ImageDimensions::Dim3d { depth, .. } => depth,
        }
    }

    pub fn extent_3d(&self) -> (r: Extent3D)
        ensures
            r == self.spec_extent_3d(),
    {
        Extent3D { width: self.width(), height: self.height(), depth: self.depth() }
    }

    /// 1 for 3d images.
    #[verifier::when_used_as_spec(spec_array_layers)]
    pub fn array_layers(&self) -> (r: u32)
        ensures
            r == self.spec_array_layers(),
    {
        match *self {
            ImageDimensions::Dim1d { array_layers, .. } => array_layers,
            ImageDimensions::Dim2d { array_layers, .. } => array_layers,
            ImageDimensions::Dim3d { .. } => 1,
        }
    }

    /// `width * height * depth * array_layers`, multiplied left to right; each
    /// partial product must fit in a `u32`.
    pub fn num_texels(&self) -> (r: u32)
        requires
            self.spec_width() * self.spec_height() <= u32::MAX,
            self.spec_width() * self.spec_height() * self.spec_depth() <= u32::MAX,
            self.texel_count() <= u32::MAX,
        ensures
            r == self.texel_count(),
    {
        let w = self.width();
        let h = self.height();
        let d = self.depth();
        let l = self.array_layers();
        let wh = w * h;
        let whd = wh * d;
        whd * l
    }

    /// The `VkImageType` code of these dimensions.
    pub fn image_type(&self) -> (r: i32)
        ensures
            r == match *self {
                ImageDimensions::Dim1d { .. } => IMAGE_TYPE_1D,
                ImageDimensions::Dim2d { .. } => IMAGE_TYPE_2D,
                ImageDimensions::Dim3d { .. } => IMAGE_TYPE_3D,
            },
    {
        match *self {
            ImageDimensions::Dim1d { .. } => IMAGE_TYPE_1D,
            ImageDimensions::Dim2d { .. } => IMAGE_TYPE_2D,
            ImageDimensions::Dim3d { .. } => IMAGE_TYPE_3D,
        }
    }

    /// The `VkImageViewType` code a view of the whole image would have: the array
    /// variant unless there is exactly one layer.
    pub open spec fn spec_default_image_view_type(&self) -> i32 {
        match *self {
            ImageDimensions::Dim1d { array_layers, .. } => if array_layers == 1 {
                IMAGE_VIEW_TYPE_1D
            } else {
                IMAGE_VIEW_TYPE_1D_ARRAY
            },
            ImageDimensions::Dim2d { array_layers, .. } => if array_layers == 1 {
                IMAGE_VIEW_TYPE_2D
            } else {
                IMAGE_VIEW_TYPE_2D_ARRAY
            },
            ImageDimensions::Dim3d { .. } => IMAGE_VIEW_TYPE_3D,
        }
    }

    #[verifier::when_used_as_spec(spec_default_image_view_type)]
    pub fn default_image_view_type(&self) -> (r: i32)
        ensures
            r == self.spec_default_image_view_type(),
            r == match *self {
                ImageDimensions::Dim1d { array_layers, .. } => if array_layers == 1 {
                    IMAGE_VIEW_TYPE_1D
                } else {
                    IMAGE_VIEW_TYPE_1D_ARRAY
                },
                ImageDimensions::Dim2d { array_layers, .. } => if array_layers == 1 {
                    IMAGE_VIEW_TYPE_2D
                } else {
                    IMAGE_VIEW_TYPE_2D_ARRAY
                },
                ImageDimensions::Dim3d { .. } => IMAGE_VIEW_TYPE_3D,
            },
    {
        match *self {
            ImageDimensions::Dim1d { array_layers, .. } => {
                if array_layers == 1 {
                    IMAGE_VIEW_TYPE_1D
                } else {
                    IMAGE_VIEW_TYPE_1D_ARRAY
                }
            },
            ImageDimensions::Dim2d { array_layers, .. } => {
                if array_layers == 1 {
                    IMAGE_VIEW_TYPE_2D
                } else {
                    IMAGE_VIEW_TYPE_2D_ARRAY
                }
            },
            ImageDimensions::Dim3d { .. } => IMAGE_VIEW_TYPE_3D,
        }
    }
}

impl Default for ImageDimensions {
    fn default() -> (r: Self)
        ensures
            r == (ImageDimensions::Dim1d { width: 1, array_layers: 1 }),
    {
        Self::Dim1d { width: 1, array_layers: 1 }
    }
}

impl ImageDimensions {
    /// How `Debug` writes the dimensions: the variant's name and its fields.
    pub open spec fn debug_text(&self) -> Seq<char> {
        match *self {
            ImageDimensions::Dim1d { width, array_layers } => "Dim1d { width: "@ + decimal_text(
                width as nat,
            ) + ", array_layers: "@ + decimal_text(array_layers as nat) + " }"@,
            ImageDimensions::Dim2d { width, height, array_layers } => "Dim2d { width: "@
                + decimal_text(width as nat) + ", height: "@ + decimal_text(height as nat)
                + ", array_layers: "@ + decimal_text(array_layers as nat) + " }"@,
            ImageDimensions::Dim3d { width, height, depth } => "Dim3d { width: "@ + decimal_text(
                width as nat,
            ) + ", height: "@ + decimal_text(height as nat) + ", depth: "@ + decimal_text(
                depth as nat,
            ) + " }"@,
        }
    }

    /// The dimensions written as `Debug` writes them.
    pub fn debug_string(&self) -> (r: String)
        ensures
            r@ == self.debug_text(),
    {
        proof {
            reveal_strlit("Dim1d { width: ");
            reveal_strlit("Dim2d { width: ");
            reveal_strlit("Dim3d { width: ");
            reveal_strlit(", height: ");
            reveal_strlit(", depth: ");
            reveal_strlit(", array_layers: ");
            reveal_strlit(" }");
        }
        match *self {
            ImageDimensions::Dim1d { width, array_layers } => {
                let mut s = "Dim1d { width: ".to_owned();
                s.append(decimal_string(width as u64).as_str());
                s.append(", array_layers: ");
                s.append(decimal_string(array_layers as u64).as_str());
                s.append(" }");
                s
            },
            ImageDimensions::Dim2d { width, height, array_layers } => {
                let mut s = "Dim2d { width: ".to_owned();
                s.append(decimal_string(width as u64).as_str());
                s.append(", height: ");
                s.append(decimal_string(height as u64).as_str());
                s.append(", array_layers: ");
                s.append(decimal_string(array_layers as u64).as_str());
                s.append(" }");
                s
            },
            ImageDimensions::Dim3d { width, height, depth } => {
                let mut s = "Dim3d { width: ".to_owned();
                s.append(decimal_string(width as u64).as_str());
                s.append(", height: ");
                s.append(decimal_string(height as u64).as_str());
                s.append(", depth: ");
                s.append(decimal_string(depth as u64).as_str());
                s.append(" }");
                s
            },
        }
    }
}

/// Why an image region could not be read or written.
#[derive(Debug, Clone, Copy, PartialEq, Eq, Structural)]
pub enum ImageAccessError {
    /// The requested coordinates and the image dimensions are different variants.
    IncompatibleDimensions { requested_coordinates: ImageDimensions, image_dimensions: ImageDimensions },
    InvalidDimensions { requested_coordinates: ImageDimensions, image_dimensions: ImageDimensions },
    MemoryError(MemoryError),
}

impl ImageAccessError {
    /// The description of the error.
    pub open spec fn message_text(&self) -> Seq<char> {
        match *self {
            ImageAccessError::MemoryError(e) => e.message_text(),
            ImageAccessError::IncompatibleDimensions { requested_coordinates, image_dimensions } =>
                "incompatible coordinate/dimension types: requested coordinates = "@
                    + requested_coordinates.debug_text() + ", image dimensions = "@
                    + image_dimensions.debug_text(),
            ImageAccessError::InvalidDimensions { requested_coordinates, image_dimensions } =>
                "invalid coordinates/dimensions: requested coordinates = "@
                    + requested_coordinates.debug_text() + ", image dimensions = "@
                    + image_dimensions.debug_text(),
        }
    }

    /// A description of the error.
    pub fn message(&self) -> (r: String)
        ensures
            r@ == self.message_text(),
    {
        proof {
            reveal_strlit("incompatible coordinate/dimension types: requested coordinates = ");
            reveal_strlit("invalid coordinates/dimensions: requested coordinates = ");
            reveal_strlit(", image dimensions = ");
        }
        match *self {
            ImageAccessError::MemoryError(e) => e.message(),
            ImageAccessError::IncompatibleDimensions { requested_coordinates, image_dimensions } => {
                let mut s = "incompatible coordinate/dimension types: requested coordinates = ".to_owned();
                s.append(requested_coordinates.debug_string().as_str());
                s.append(", image dimensions = ");
                s.append(image_dimensions.debug_string().as_str());
                s
            },
            ImageAccessError::InvalidDimensions { requested_coordinates, image_dimensions } => {
                let mut s = "invalid coordinates/dimensions: requested coordinates = ".to_owned();
                s.append(requested_coordinates.debug_string().as_str());
                s.append(", image dimensions = ");
                s.append(image_dimensions.debug_string().as_str());
                s
            },
        }
    }
}

/// What each kind of dimensions reports: a 1d image is one texel tall and deep, a
/// 2d image one deep, a 3d image has one layer; and a view of the whole image is
/// of the image's own kind (1d: 0, 2d: 1, 3d: 2), in its array form (1d array: 4,
/// 2d array: 5) exactly when a 1d or 2d image has a layer count other than one.
pub proof fn lemma_dimensions_shape(d: ImageDimensions)
    ensures
        d matches ImageDimensions::Dim1d { width, array_layers } ==> d.spec_extent_3d() == (Extent3D {
            width,
            height: 1,
            depth: 1,
        }) && d.spec_array_layers() == array_layers && d.spec_default_image_view_type() == if array_layers
            == 1 {
            0i32
        } else {
            4i32
        },
        d matches ImageDimensions::Dim2d { width, height, array_layers } ==> d.spec_extent_3d() == (
        Extent3D { width, height, depth: 1 }) && d.spec_array_layers() == array_layers
            && d.spec_default_image_view_type() == if array_layers == 1 {
            1i32
        } else {
            5i32
        },
        d matches ImageDimensions::Dim3d { width, height, depth } ==> d.spec_extent_3d() == (Extent3D {
            width,
            height,
            depth,
        }) && d.spec_array_layers() == 1 && d.spec_default_image_view_type() == 2i32,
        d.texel_count() == d.spec_extent_3d().width * d.spec_extent_3d().height * d.spec_extent_3d().depth
            * d.spec_array_layers(),
{
}

/// Reading the extent and layer count of canonical dimensions and rebuilding them
/// with `new_from_extent_and_layers` gives the same dimensions back.
pub proof fn lemma_extent_and_layers_round_trip(d: ImageDimensions)
    requires
        d.is_canonical(),
    ensures
        ImageDimensions::from_extent_and_layers(d.spec_extent_3d(), d.spec_array_layers()) == d,
{
}

/// Rebuilding from an extent and a layer count keeps the width, keeps the layer
/// count when it is above one (else one layer), and yields canonical dimensions
/// whenever the layer count is not zero.
pub proof fn lemma_from_extent_and_layers_shape(extent_3d: Extent3D, array_layers: u32)
    ensures
        ({
            let d = ImageDimensions::from_extent_and_layers(extent_3d, array_layers);
            &&& d.spec_width() == extent_3d.width
            &&& d.spec_array_layers() == (if array_layers > 1 { array_layers } else { 1 })
            &&& array_layers <= 1 ==> d.spec_extent_3d() == (Extent3D {
                width: extent_3d.width,
                height: if extent_3d.depth > 1 || extent_3d.height > 1 { extent_3d.height } else { 1 },
                depth: if extent_3d.depth > 1 { extent_3d.depth } else { 1 },
            })
            &&& d.is_canonical()
        }),
{
}

} // verus!
