//! Materials: a CPU-side description, and its resolution into what the GPU
//! draws with, either a 2D texture uploaded from the description's image or
//! a flat color.
use std::rc::Rc;
use vstd::prelude::*;
use crate::gpu::{Command, Error, Interpolation, TextureSettings, Wrapping};

verus! {

#[verifier::external_type_specification]
#[verifier::external_body]
pub struct ExDynamicImage(image::DynamicImage);

/// Relies on `GenericImageView::dimensions` of `image::DynamicImage`: the
/// image's width and height in pixels.
#[verifier::external_body]
fn image_dimensions(img: &image::DynamicImage) -> (r: (u32, u32)) {
    image::GenericImageView::dimensions(img)
}

/// Relies on `image::DynamicImage::to_bytes`: a copy of the image's pixels.
#[verifier::external_body]
fn image_bytes(img: &image::DynamicImage) -> (r: Vec<u8>) {
    img.to_bytes()
}

/// A single-precision float, held as its IEEE 754 bit pattern. Materials
/// carry such values through without computing on them.
#[derive(Clone, Copy, Debug, PartialEq, Eq, Structural)]
pub struct Scalar {
    pub bits: u32,
}

/// An RGBA color, each channel nominally in [0, 1].
#[derive(Clone, Copy, Debug, PartialEq, Eq, Structural)]
pub struct Color {
    pub r: Scalar,
    pub g: Scalar,
    pub b: Scalar,
    pub a: Scalar,
}

/// The bit pattern of 1.0.
pub const ONE_BITS: u32 = 0x3f80_0000;

/// The name of the material used where a scene gives none.
pub const DEFAULT_MATERIAL_NAME: &'static str = "default";

/// Opaque white, (1, 1, 1, 1).
pub open spec fn opaque_white() -> Color {
    Color {
        r: Scalar { bits: ONE_BITS },
        g: Scalar { bits: ONE_BITS },
        b: Scalar { bits: ONE_BITS },
        a: Scalar { bits: ONE_BITS },
    }
}

impl Color {
    /// Opaque white, (1, 1, 1, 1).
    pub fn opaque_white() -> (r: Color)
        ensures
            r == opaque_white(),
    {
        let one = Scalar { bits: ONE_BITS };
        Color { r: one, g: one, b: one, a: one }
    }
}

/// How a material's texture is sampled: linear filtering within and between
/// mip levels, repeated in both directions.
pub open spec fn material_texture_settings() -> TextureSettings {
    TextureSettings {
        min_filter: Interpolation::Linear,
        mag_filter: Interpolation::Linear,
        mip_map_filter: Some(Interpolation::Linear),
        wrap_s: Wrapping::Repeat,
        wrap_t: Wrapping::Repeat,
    }
}

/// A material as the CPU describes it. Where an image is given it takes
/// precedence over the color.
#[derive(Default)]
pub struct CPUMaterial {
    pub name: String,
    pub color: Option<Color>,
    pub texture_image: Option<image::DynamicImage>,
    pub diffuse_intensity: Option<Scalar>,
    pub specular_intensity: Option<Scalar>,
    pub specular_power: Option<Scalar>,
}

impl CPUMaterial {
    /// A material description from its parts.
    pub fn new(
        name: &str,
        texture_image: Option<image::DynamicImage>,
        color: Option<Color>,
        diffuse_intensity: Option<Scalar>,
        specular_intensity: Option<Scalar>,
        specular_power: Option<Scalar>,
    ) -> (r: Result<Self, Error>)
        ensures
            r matches Ok(m) && m.name@ == name@ && m.texture_image == texture_image && m.color == color
                && m.diffuse_intensity == diffuse_intensity && m.specular_intensity == specular_intensity
                && m.specular_power == specular_power,
    {
        Ok(CPUMaterial {
            name: name.to_owned(),
            texture_image,
            color,
            diffuse_intensity,
            specular_intensity,
            specular_power,
        })
    }
}

/// A texture in the graphics context: the handle the context gave it, its
/// size and how it is sampled.
#[derive(Clone, Copy, Debug, PartialEq, Eq, Structural)]
pub struct Texture2D {
    pub handle: u32,
    pub width: u32,
    pub height: u32,
    pub settings: TextureSettings,
}

/// Where a material's base color comes from. A texture is shared by every
/// clone of the material that holds it.
#[derive(Clone, Debug)]
pub enum ColorSource {
    Color(Color),
    Texture(Rc<Texture2D>),
}

/// A material resolved against the graphics context.
#[derive(Clone, Debug)]
pub struct Material {
    pub name: String,
    pub color_source: ColorSource,
    pub diffuse_intensity: Option<Scalar>,
    pub specular_intensity: Option<Scalar>,
    pub specular_power: Option<Scalar>,
}

/// A material that waits for its texture to be created.
#[derive(Debug)]
pub struct PendingMaterial {
    pub name: String,
    pub width: u32,
    pub height: u32,
    pub diffuse_intensity: Option<Scalar>,
    pub specular_intensity: Option<Scalar>,
    pub specular_power: Option<Scalar>,
}

/// The outcome of starting to resolve a material.
#[derive(Debug)]
pub enum Resolution {
    /// Send this request to the context and hand its answer to the pending
    /// material.
    Upload(PendingMaterial, Command),
    /// The material needed nothing from the context.
    Ready(Material),
}

/// `m` carries the lighting coefficients of `cpu` unchanged.
pub open spec fn same_lighting(m: Material, cpu: CPUMaterial) -> bool {
    &&& m.diffuse_intensity == cpu.diffuse_intensity
    &&& m.specular_intensity == cpu.specular_intensity
    &&& m.specular_power == cpu.specular_power
}

/// `r` is how resolving `cpu` begins. With an image, the pixels are
/// uploaded as a texture with the material sampling settings, and the
/// pending material keeps the size the image reports; without one, the
/// material is ready, with the description's color or else opaque white.
/// Name and lighting coefficients are carried over either way.
pub open spec fn is_resolution_start(cpu: CPUMaterial, r: Resolution) -> bool {
    match cpu.texture_image {
        Some(_) => r matches Resolution::Upload(p, c)
            && c matches Command::CreateTexture2D { settings, width, height, .. }
            && settings == material_texture_settings() && p.width == width && p.height == height
            && p.name@ == cpu.name@
            && p.diffuse_intensity == cpu.diffuse_intensity
            && p.specular_intensity == cpu.specular_intensity
            && p.specular_power == cpu.specular_power,
        None => r matches Resolution::Ready(m)
            && m.name@ == cpu.name@
            && m.color_source == ColorSource::Color(cpu.color.unwrap_or(opaque_white()))
            && same_lighting(m, cpu),
    }
}

/// `r` is how resolving the pending material `p` ends on the context's
/// answer `reply`: a material whose color source is the new texture, or a
/// texture upload error with the context's message.
pub open spec fn is_resolution_end(p: PendingMaterial, reply: Result<u32, String>, r: Result<Material, Error>) -> bool {
    match reply {
        Ok(handle) => r matches Ok(m) && m.name@ == p.name@
            && m.color_source == ColorSource::Texture(Rc::new(Texture2D {
                handle,
                width: p.width,
                height: p.height,
                settings: material_texture_settings(),
            }))
            && m.diffuse_intensity == p.diffuse_intensity
            && m.specular_intensity == p.specular_intensity
            && m.specular_power == p.specular_power,
        Err(e) => r matches Err(Error::TextureUpload(m)) && m@ == e@,
    }
}

impl Material {
    /// Starts resolving `cpu_material`. With an image, the first request
    /// uploads the image's pixels as a texture; without one, the material is
    /// ready at once, with the description's color, or opaque white where it
    /// has none. Name and lighting coefficients are carried over unchanged.
    pub fn new(cpu_material: &CPUMaterial) -> (r: Resolution)
        ensures
            is_resolution_start(*cpu_material, r),
    {
        match &cpu_material.texture_image {
            Some(img) => {
                let (width, height) = image_dimensions(img);
                let pixels = image_bytes(img);
                let settings = TextureSettings {
                    min_filter: Interpolation::Linear,
                    mag_filter: Interpolation::Linear,
                    mip_map_filter: Some(Interpolation::Linear),
                    wrap_s: Wrapping::Repeat,
                    wrap_t: Wrapping::Repeat,
                };
                let pending = PendingMaterial {
                    name: cpu_material.name.clone(),
                    width,
                    height,
                    diffuse_intensity: cpu_material.diffuse_intensity,
                    specular_intensity: cpu_material.specular_intensity,
                    specular_power: cpu_material.specular_power,
                };
                Resolution::Upload(pending, Command::CreateTexture2D { settings, width, height, pixels })
            },
            None => {
                let color = match cpu_material.color {
                    Some(c) => c,
                    None => Color::opaque_white(),
                };
                Resolution::Ready(Material {
                    name: cpu_material.name.clone(),
                    color_source: ColorSource::Color(color),
                    diffuse_intensity: cpu_material.diffuse_intensity,
                    specular_intensity: cpu_material.specular_intensity,
                    specular_power: cpu_material.specular_power,
                })
            },
        }
    }
}

impl Default for Material {
    /// The material used where a scene gives none: named "default", opaque
    /// white, no lighting coefficients.
    fn default() -> (r: Material)
        ensures
            r.name@ == DEFAULT_MATERIAL_NAME@,
            r.color_source == ColorSource::Color(opaque_white()),
            r.diffuse_intensity is None,
            r.specular_intensity is None,
            r.specular_power is None,
    {
        Material {
            name: DEFAULT_MATERIAL_NAME.to_owned(),
            color_source: ColorSource::Color(Color::opaque_white()),
            diffuse_intensity: None,
            specular_intensity: None,
            specular_power: None,
        }
    }
}

impl PendingMaterial {
    /// Takes the context's answer to the texture upload: the new texture's
    /// handle, which becomes the material's color source, or a failure,
    /// which is a texture upload error.
    pub fn finish(self, reply: Result<u32, String>) -> (r: Result<Material, Error>)
        ensures
            is_resolution_end(self, reply, r),
    {
        match reply {
            Ok(handle) => {
                let settings = TextureSettings {
                    min_filter: Interpolation::Linear,
                    mag_filter: Interpolation::Linear,
                    mip_map_filter: Some(Interpolation::Linear),
                    wrap_s: Wrapping::Repeat,
                    wrap_t: Wrapping::Repeat,
                };
                let texture = Texture2D { handle, width: self.width, height: self.height, settings };
                Ok(Material {
                    name: self.name,
                    color_source: ColorSource::Texture(Rc::new(texture)),
                    diffuse_intensity: self.diffuse_intensity,
                    specular_intensity: self.specular_intensity,
                    specular_power: self.specular_power,
                })
            },
            Err(e) => Err(Error::TextureUpload(e)),
        }
    }
}

/// An image takes precedence over a color: a description with both starts
/// with a texture upload, and once the context creates the texture the
/// material's color comes from it.
pub proof fn lemma_image_takes_precedence(
    cpu: CPUMaterial,
    r: Resolution,
    reply: Result<u32, String>,
    done: Result<Material, Error>,
)
    requires
        cpu.texture_image is Some,
        cpu.color is Some,
        is_resolution_start(cpu, r),
        r matches Resolution::Upload(p, _) && is_resolution_end(p, reply, done),
        reply is Ok,
    ensures
        r is Upload,
        done matches Ok(m) && m.color_source is Texture,
{
}

/// A description with neither image nor color resolves at once to opaque
/// white.
pub proof fn lemma_plain_description_is_white(cpu: CPUMaterial, r: Resolution)
    requires
        cpu.texture_image is None,
        cpu.color is None,
        is_resolution_start(cpu, r),
    ensures
        r matches Resolution::Ready(m) && m.color_source == ColorSource::Color(opaque_white()),
{
}

} // verus!
