use bort_vk::image_dimensions::{
    IMAGE_TYPE_1D, IMAGE_TYPE_2D, IMAGE_TYPE_3D, IMAGE_VIEW_TYPE_1D, IMAGE_VIEW_TYPE_1D_ARRAY,
    IMAGE_VIEW_TYPE_2D, IMAGE_VIEW_TYPE_2D_ARRAY, IMAGE_VIEW_TYPE_3D,
};
use bort_vk::{Extent3D, ImageDimensions};

#[test]
fn constructors_and_getters() {
    let d = ImageDimensions::new_1d(7);
    assert_eq!(d, ImageDimensions::Dim1d { width: 7, array_layers: 1 });
    assert_eq!((d.width(), d.height(), d.depth(), d.array_layers()), (7, 1, 1, 1));

    let d = ImageDimensions::new_1d_array(7, 3);
    assert_eq!((d.width(), d.height(), d.depth(), d.array_layers()), (7, 1, 1, 3));

    let d = ImageDimensions::new_2d(4, 5);
    assert_eq!(d, ImageDimensions::Dim2d { width: 4, height: 5, array_layers: 1 });
    assert_eq!(d.width_height(), [4, 5]);

    let d = ImageDimensions::new_2d_array(4, 5, 6);
    assert_eq!((d.width(), d.height(), d.depth(), d.array_layers()), (4, 5, 1, 6));

    let d = ImageDimensions::new_3d(4, 5, 6);
    assert_eq!((d.width(), d.height(), d.depth(), d.array_layers()), (4, 5, 6, 1));
    assert_eq!(d.extent_3d(), Extent3D { width: 4, height: 5, depth: 6 });
}

#[test]
fn default_is_single_texel_1d() {
    assert_eq!(
        ImageDimensions::default(),
        ImageDimensions::Dim1d { width: 1, array_layers: 1 }
    );
}

#[test]
fn num_texels_is_the_product() {
    assert_eq!(ImageDimensions::new_2d_array(4, 5, 6).num_texels(), 120);
    assert_eq!(ImageDimensions::new_3d(2, 3, 4).num_texels(), 24);
    assert_eq!(ImageDimensions::new_1d_array(9, 2).num_texels(), 18);
    assert_eq!(ImageDimensions::new_2d(0, 5).num_texels(), 0);
}

#[test]
fn image_and_view_types() {
    assert_eq!(ImageDimensions::new_1d(3).image_type(), IMAGE_TYPE_1D);
    assert_eq!(ImageDimensions::new_2d(3, 3).image_type(), IMAGE_TYPE_2D);
    assert_eq!(ImageDimensions::new_3d(3, 3, 3).image_type(), IMAGE_TYPE_3D);
    assert_eq!(ImageDimensions::new_1d(3).default_image_view_type(), IMAGE_VIEW_TYPE_1D);
    assert_eq!(
        ImageDimensions::new_1d_array(3, 2).default_image_view_type(),
        IMAGE_VIEW_TYPE_1D_ARRAY
    );
    assert_eq!(ImageDimensions::new_2d(3, 3).default_image_view_type(), IMAGE_VIEW_TYPE_2D);
    assert_eq!(
        ImageDimensions::new_2d_array(3, 3, 4).default_image_view_type(),
        IMAGE_VIEW_TYPE_2D_ARRAY
    );
    // zero layers is not exactly one: the array type
    assert_eq!(
        ImageDimensions::new_2d_array(3, 3, 0).default_image_view_type(),
        IMAGE_VIEW_TYPE_2D_ARRAY
    );
    assert_eq!(ImageDimensions::new_3d(3, 3, 3).default_image_view_type(), IMAGE_VIEW_TYPE_3D);
    assert_eq!(IMAGE_TYPE_3D, ash::vk::ImageType::TYPE_3D.as_raw());
    assert_eq!(IMAGE_VIEW_TYPE_2D_ARRAY, ash::vk::ImageViewType::TYPE_2D_ARRAY.as_raw());
}

#[test]
fn new_from_extent_and_layers_branches() {
    let e = |width, height, depth| Extent3D { width, height, depth };
    assert_eq!(
        ImageDimensions::new_from_extent_and_layers(e(8, 4, 1), 3),
        ImageDimensions::new_2d_array(8, 4, 3)
    );
    // a depth is dropped for layered images
    assert_eq!(
        ImageDimensions::new_from_extent_and_layers(e(8, 4, 5), 3),
        ImageDimensions::new_2d_array(8, 4, 3)
    );
    assert_eq!(
        ImageDimensions::new_from_extent_and_layers(e(8, 1, 1), 3),
        ImageDimensions::new_1d_array(8, 3)
    );
    assert_eq!(
        ImageDimensions::new_from_extent_and_layers(e(8, 4, 5), 1),
        ImageDimensions::new_3d(8, 4, 5)
    );
    assert_eq!(
        ImageDimensions::new_from_extent_and_layers(e(8, 4, 1), 1),
        ImageDimensions::new_2d(8, 4)
    );
    assert_eq!(
        ImageDimensions::new_from_extent_and_layers(e(8, 1, 1), 0),
        ImageDimensions::new_1d(8)
    );
}

#[test]
fn extent_and_layers_round_trip() {
    for d in [
        ImageDimensions::new_1d(5),
        ImageDimensions::new_1d_array(5, 4),
        ImageDimensions::new_2d(5, 6),
        ImageDimensions::new_2d_array(5, 6, 2),
        ImageDimensions::new_3d(5, 6, 7),
    ] {
        assert_eq!(
            ImageDimensions::new_from_extent_and_layers(d.extent_3d(), d.array_layers()),
            d
        );
    }
    // not canonical: a 2d image one texel tall comes back as 1d
    let flat = ImageDimensions::new_2d(5, 1);
    assert_eq!(
        ImageDimensions::new_from_extent_and_layers(flat.extent_3d(), flat.array_layers()),
        ImageDimensions::new_1d(5)
    );
}
