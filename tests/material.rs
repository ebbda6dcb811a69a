use std::rc::Rc;

use cube_effect::gpu::{Command, Error, Interpolation, TextureSettings, Wrapping};
use cube_effect::material::{CPUMaterial, Color, ColorSource, Material, Resolution, Scalar, Texture2D};

fn scalar(v: f32) -> Scalar {
    Scalar { bits: v.to_bits() }
}

fn rgba(r: f32, g: f32, b: f32, a: f32) -> Color {
    Color { r: scalar(r), g: scalar(g), b: scalar(b), a: scalar(a) }
}

fn image(width: u32, height: u32) -> image::DynamicImage {
    let buffer = image::RgbaImage::from_pixel(width, height, image::Rgba([10, 20, 30, 255]));
    image::DynamicImage::ImageRgba8(buffer)
}

fn linear_repeat() -> TextureSettings {
    TextureSettings {
        min_filter: Interpolation::Linear,
        mag_filter: Interpolation::Linear,
        mip_map_filter: Some(Interpolation::Linear),
        wrap_s: Wrapping::Repeat,
        wrap_t: Wrapping::Repeat,
    }
}

fn resolve(cpu: &CPUMaterial, handle: u32) -> Material {
    match Material::new(cpu) {
        Resolution::Upload(pending, _) => pending.finish(Ok(handle)).unwrap_or_else(|e| panic!("{:?}", e)),
        Resolution::Ready(m) => m,
    }
}

#[test]
fn cpu_material_new_keeps_its_parts() {
    let m = CPUMaterial::new("brick", None, Some(rgba(0.5, 0.25, 1.0, 1.0)), Some(scalar(0.8)), None, Some(scalar(6.0)))
        .unwrap_or_else(|e| panic!("{:?}", e));
    assert_eq!(m.name, "brick");
    assert_eq!(m.color, Some(rgba(0.5, 0.25, 1.0, 1.0)));
    assert!(m.texture_image.is_none());
    assert_eq!(m.diffuse_intensity, Some(scalar(0.8)));
    assert_eq!(m.specular_intensity, None);
    assert_eq!(m.specular_power, Some(scalar(6.0)));
}

#[test]
fn image_takes_precedence_over_color() {
    let cpu = CPUMaterial::new("both", Some(image(2, 3)), Some(rgba(1.0, 0.0, 0.0, 1.0)), None, None, None)
        .unwrap_or_else(|e| panic!("{:?}", e));
    let pending = match Material::new(&cpu) {
        Resolution::Upload(pending, Command::CreateTexture2D { settings, width, height, pixels }) => {
            assert_eq!(settings, linear_repeat());
            assert_eq!((width, height), (2, 3));
            assert_eq!(pixels.len(), 2 * 3 * 4);
            assert_eq!(&pixels[0..4], &[10, 20, 30, 255]);
            pending
        }
        other => panic!("unexpected resolution {:?}", other),
    };
    let m = pending.finish(Ok(11)).unwrap_or_else(|e| panic!("{:?}", e));
    assert_eq!(m.name, "both");
    match m.color_source {
        ColorSource::Texture(t) => {
            assert_eq!(*t, Texture2D { handle: 11, width: 2, height: 3, settings: linear_repeat() });
        }
        ColorSource::Color(c) => panic!("expected a texture, got {:?}", c),
    }
}

#[test]
fn neither_image_nor_color_is_opaque_white() {
    let cpu = CPUMaterial::new("plain", None, None, None, None, None).unwrap_or_else(|e| panic!("{:?}", e));
    let m = resolve(&cpu, 0);
    match m.color_source {
        ColorSource::Color(c) => {
            assert_eq!(c, rgba(1.0, 1.0, 1.0, 1.0));
            assert_eq!(c, Color::opaque_white());
        }
        ColorSource::Texture(_) => panic!("expected a color"),
    }
}

#[test]
fn color_only_keeps_color_and_lighting() {
    let cpu = CPUMaterial::new("red", None, Some(rgba(1.0, 0.0, 0.0, 0.5)), Some(scalar(0.3)), Some(scalar(0.7)), Some(scalar(12.0)))
        .unwrap_or_else(|e| panic!("{:?}", e));
    let m = resolve(&cpu, 0);
    assert_eq!(m.name, "red");
    assert!(matches!(m.color_source, ColorSource::Color(c) if c == rgba(1.0, 0.0, 0.0, 0.5)));
    assert_eq!(f32::from_bits(m.diffuse_intensity.unwrap().bits), 0.3);
    assert_eq!(f32::from_bits(m.specular_intensity.unwrap().bits), 0.7);
    assert_eq!(f32::from_bits(m.specular_power.unwrap().bits), 12.0);
}

#[test]
fn shared_textures_outlive_a_dropped_material() {
    let img = image(4, 4);
    let a = CPUMaterial::new("a", Some(img.clone()), None, None, None, None).unwrap_or_else(|e| panic!("{:?}", e));
    let b = CPUMaterial::new("b", Some(img), None, None, None, None).unwrap_or_else(|e| panic!("{:?}", e));
    let ma = resolve(&a, 1);
    let mb = resolve(&b, 2);
    let copy = ma.clone();
    drop(ma);
    match (&copy.color_source, &mb.color_source) {
        (ColorSource::Texture(ta), ColorSource::Texture(tb)) => {
            assert_eq!(Rc::strong_count(ta), 1);
            assert_eq!((ta.handle, ta.width, ta.height), (1, 4, 4));
            drop(copy.clone());
            assert_eq!((tb.handle, tb.width, tb.height), (2, 4, 4));
        }
        _ => panic!("expected textures"),
    }
    drop(mb);
    match &copy.color_source {
        ColorSource::Texture(t) => assert_eq!(t.handle, 1),
        ColorSource::Color(_) => panic!("expected a texture"),
    }
}

#[test]
fn failed_texture_upload_is_an_error() {
    let cpu = CPUMaterial::new("broken", Some(image(1, 1)), None, None, None, None).unwrap_or_else(|e| panic!("{:?}", e));
    match Material::new(&cpu) {
        Resolution::Upload(pending, _) => match pending.finish(Err("unsupported format".to_string())) {
            Err(Error::TextureUpload(m)) => assert_eq!(m, "unsupported format"),
            other => panic!("unexpected result {:?}", other),
        },
        other => panic!("unexpected resolution {:?}", other),
    }
}

#[test]
fn default_material_is_white_and_unlit() {
    let m = Material::default();
    assert_eq!(m.name, "default");
    assert!(matches!(m.color_source, ColorSource::Color(c) if c == rgba(1.0, 1.0, 1.0, 1.0)));
    assert!(m.diffuse_intensity.is_none() && m.specular_intensity.is_none() && m.specular_power.is_none());
}
