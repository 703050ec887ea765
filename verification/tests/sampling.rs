use texture_array::sampling::minification;
use texture_array::{Interpolation, Minification, Mipmap};

fn chain(filter: Interpolation) -> Option<Mipmap> {
    Some(Mipmap { filter, max_ratio: 1, max_levels: 8 })
}

#[test]
fn minification_without_a_chain_is_the_filter_itself() {
    assert_eq!(minification(Interpolation::Nearest, None), Minification::Nearest);
    assert_eq!(minification(Interpolation::Linear, None), Minification::Linear);
}

#[test]
fn minification_with_a_chain_names_both_filters() {
    assert_eq!(
        minification(Interpolation::Nearest, chain(Interpolation::Nearest)),
        Minification::NearestMipmapNearest
    );
    assert_eq!(
        minification(Interpolation::Nearest, chain(Interpolation::Linear)),
        Minification::NearestMipmapLinear
    );
    assert_eq!(
        minification(Interpolation::Linear, chain(Interpolation::Nearest)),
        Minification::LinearMipmapNearest
    );
    assert_eq!(
        minification(Interpolation::Linear, chain(Interpolation::Linear)),
        Minification::LinearMipmapLinear
    );
}
