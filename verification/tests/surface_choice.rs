use line_sdf::frame::Size;
use line_sdf::surface::{choose_surface_format, first_srgb_index, plan_surface};
use wgpu::{CompositeAlphaMode, PresentMode, TextureFormat};

#[test]
fn first_srgb_index_picks_first_true() {
    assert_eq!(first_srgb_index(&vec![false, true, true]), 1);
    assert_eq!(first_srgb_index(&vec![true, false]), 0);
    assert_eq!(first_srgb_index(&vec![false, false, false]), 0);
    assert_eq!(first_srgb_index(&vec![]), 0);
}

#[test]
fn srgb_format_preferred() {
    let formats = vec![TextureFormat::Bgra8Unorm, TextureFormat::Bgra8UnormSrgb];
    assert_eq!(choose_surface_format(&formats), TextureFormat::Bgra8UnormSrgb);
    let formats = vec![
        TextureFormat::Rgba16Float,
        TextureFormat::Rgba8UnormSrgb,
        TextureFormat::Bgra8UnormSrgb,
    ];
    assert_eq!(choose_surface_format(&formats), TextureFormat::Rgba8UnormSrgb);
}

#[test]
fn first_format_without_srgb() {
    let formats = vec![TextureFormat::Rgba8Unorm, TextureFormat::Bgra8Unorm];
    assert_eq!(choose_surface_format(&formats), TextureFormat::Rgba8Unorm);
}

#[test]
fn surface_plan_from_capabilities() {
    let plan = plan_surface(
        &vec![TextureFormat::Bgra8Unorm, TextureFormat::Bgra8UnormSrgb],
        &vec![PresentMode::Fifo, PresentMode::Mailbox],
        &vec![CompositeAlphaMode::Opaque, CompositeAlphaMode::PreMultiplied],
        Size { width: 800, height: 600 },
    );
    assert_eq!(plan.format, TextureFormat::Bgra8UnormSrgb);
    assert_eq!(plan.present_mode, PresentMode::Fifo);
    assert_eq!(plan.alpha_mode, CompositeAlphaMode::Opaque);
    assert_eq!(plan.width, 800);
    assert_eq!(plan.height, 600);
}
