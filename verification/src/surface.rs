//! The drawing surface as the render state sees it: its configuration, the
//! choice of its format, and the errors of setting it up and of acquiring a
//! texture from it.

use vstd::prelude::*;

verus! {

/// `wgpu::TextureFormat`, carried through as an opaque value.
#[verifier::external_type_specification]
#[verifier::external_body]
pub struct ExTextureFormat(wgpu::TextureFormat);

/// `wgpu::SurfaceError`, carried through as an opaque value.
#[verifier::external_type_specification]
#[verifier::external_body]
pub struct ExSurfaceError(wgpu::SurfaceError);

/// `wgpu::PresentMode`, carried through as an opaque value.
#[verifier::external_type_specification]
#[verifier::external_body]
pub struct ExPresentMode(wgpu::PresentMode);

/// `wgpu::CompositeAlphaMode`, carried through as an opaque value.
#[verifier::external_type_specification]
#[verifier::external_body]
pub struct ExCompositeAlphaMode(wgpu::CompositeAlphaMode);

/// What the surface is configured with: its size in physical pixels, its
/// pixel format, and how it presents and composites.
#[derive(Clone, Copy, Debug, PartialEq, Eq)]
pub struct SurfaceConfig {
    pub width: u32,
    pub height: u32,
    pub format: wgpu::TextureFormat,
    pub present_mode: wgpu::PresentMode,
    pub alpha_mode: wgpu::CompositeAlphaMode,
}

/// Why no render state can be constructed for a surface.
#[derive(Clone, Copy, Debug, PartialEq, Eq, Structural)]
pub enum InitError {
    /// The surface supports no texture format.
    NoSurfaceFormat,
    /// The surface supports no presentation mode.
    NoPresentMode,
    /// The surface supports no alpha mode.
    NoAlphaMode,
}

/// Why the next presentable texture could not be acquired.
#[derive(Clone, Copy, Debug, PartialEq, Eq, Structural)]
pub enum AcquireError {
    Timeout,
    Outdated,
    Lost,
    OutOfMemory,
    Other,
}

/// Whether `wgpu::TextureFormat::is_srgb` holds of a format.
pub uninterp spec fn format_is_srgb(format: wgpu::TextureFormat) -> bool;

/// The variant of a `wgpu::SurfaceError`, as the variant of the same name
/// of [`AcquireError`].
pub uninterp spec fn surface_error_kind(error: wgpu::SurfaceError) -> AcquireError;

/// Calls `wgpu::TextureFormat::is_srgb`, which reports whether the format
/// differs from itself with the sRGB suffix removed. Trusted: the result is
/// a function of the format alone.
#[verifier::external_body]
fn is_srgb(format: &wgpu::TextureFormat) -> (srgb: bool)
    ensures
        srgb == format_is_srgb(*format),
{
    format.is_srgb()
}

/// Tells the five variants of `wgpu::SurfaceError` apart. Trusted: the
/// result is the variant of the same name.
#[verifier::external_body]
fn error_kind(error: &wgpu::SurfaceError) -> (kind: AcquireError)
    ensures
        kind == surface_error_kind(*error),
{
    match error {
        wgpu::SurfaceError::Timeout => AcquireError::Timeout,
        wgpu::SurfaceError::Outdated => AcquireError::Outdated,
        wgpu::SurfaceError::Lost => AcquireError::Lost,
        wgpu::SurfaceError::OutOfMemory => AcquireError::OutOfMemory,
        wgpu::SurfaceError::Other => AcquireError::Other,
    }
}

/// The position of the preferred entry in a list of sRGB flags: the first
/// entry that is set, or the first entry of the list where none is set.
pub open spec fn preferred_position(srgb: Seq<bool>) -> int
    decreases srgb.len(),
{
    if srgb.len() == 0 || srgb[0] || !srgb.contains(true) {
        0
    } else {
        1 + preferred_position(srgb.skip(1))
    }
}

/// The preferred position is that of the first set flag, and 0 where no
/// flag is set.
pub proof fn lemma_preferred_position(srgb: Seq<bool>)
    ensures
        srgb.len() > 0 ==> 0 <= preferred_position(srgb) < srgb.len(),
        srgb.contains(true) ==> srgb[preferred_position(srgb)],
        !srgb.contains(true) ==> preferred_position(srgb) == 0,
        forall|j: int| 0 <= j < preferred_position(srgb) ==> !#[trigger] srgb[j],
    decreases srgb.len(),
{
    if srgb.len() == 0 || srgb[0] || !srgb.contains(true) {
    } else {
        let rest = srgb.skip(1);
        let k = choose|k: int| 0 <= k < srgb.len() && srgb[k];
        assert(rest[k - 1] == srgb[k]);
        assert(rest.contains(true));
        lemma_preferred_position(rest);
        assert forall|j: int| 0 <= j < preferred_position(srgb) implies !#[trigger] srgb[j] by {
            if j > 0 {
                assert(rest[j - 1] == srgb[j]);
            }
        }
        assert(srgb[preferred_position(srgb)] == rest[preferred_position(rest)]);
    }
}

/// Picks among the formats that a surface supports, given for each whether
/// it is sRGB: the first sRGB one, else the first of the list. An empty
/// list has no usable format.
pub fn preferred_format_index(srgb: &Vec<bool>) -> (choice: Option<usize>)
    ensures
        srgb.len() == 0 <==> choice is None,
        choice matches Some(i) ==> i == preferred_position(srgb@) && i < srgb.len(),
        choice matches Some(i) ==> (srgb@[i as int] || (i == 0 && !srgb@.contains(true))),
        choice matches Some(i) ==> forall|j: int| 0 <= j < i ==> !#[trigger] srgb@[j],
{
    if srgb.len() == 0 {
        return None;
    }
    let mut i: usize = 0;
    while i < srgb.len()
        invariant
            i <= srgb.len(),
            forall|j: int| 0 <= j < i ==> !#[trigger] srgb@[j],
        decreases srgb.len() - i,
    {
        if srgb[i] {
            proof {
                lemma_preferred_position(srgb@);
                assert(srgb@.contains(true));
                let p = preferred_position(srgb@);
                if p < i {
                    assert(!srgb@[p]);
                }
                if i < p {
                    assert(!srgb@[i as int]);
                }
            }
            return Some(i);
        }
        i += 1;
    }
    proof {
        lemma_preferred_position(srgb@);
        if srgb@.contains(true) {
            let k = choose|k: int| 0 <= k < srgb@.len() && srgb@[k];
            assert(!srgb@[k]);
        }
    }
    Some(0)
}

/// For each format whether it is sRGB.
pub open spec fn srgb_flags_of(formats: Seq<wgpu::TextureFormat>) -> Seq<bool> {
    Seq::new(formats.len(), |i: int| format_is_srgb(formats[i]))
}

/// Asks of each format in turn whether it is sRGB.
pub fn srgb_flags(formats: &Vec<wgpu::TextureFormat>) -> (flags: Vec<bool>)
    ensures
        flags@ == srgb_flags_of(formats@),
{
    let mut flags: Vec<bool> = Vec::new();
    let mut i: usize = 0;
    while i < formats.len()
        invariant
            i <= formats.len(),
            flags@.len() == i,
            forall|j: int| 0 <= j < i ==> flags@[j] == format_is_srgb(formats@[j]),
        decreases formats.len() - i,
    {
        flags.push(is_srgb(&formats[i]));
        i += 1;
    }
    assert(flags@ =~= srgb_flags_of(formats@));
    flags
}

/// The surface format to render to: the first sRGB format that the surface
/// supports, else the first supported format; `None` when the surface
/// supports no format at all.
pub fn choose_surface_format(formats: &Vec<wgpu::TextureFormat>) -> (choice: Option<
    wgpu::TextureFormat,
>)
    ensures
        formats.len() == 0 <==> choice is None,
        choice matches Some(format) ==> format == formats@[preferred_position(
            srgb_flags_of(formats@),
        )],
        choice matches Some(format) ==> formats@.contains(format),
        choice matches Some(format) ==> (format_is_srgb(format) || (format == formats@[0]
            && forall|j: int| 0 <= j < formats.len() ==> !format_is_srgb(#[trigger] formats@[j]))),
{
    let flags = srgb_flags(formats);
    match preferred_format_index(&flags) {
        None => None,
        Some(i) => {
            proof {
                assert(flags@[i as int] == format_is_srgb(formats@[i as int]));
                if !flags@.contains(true) {
                    assert forall|j: int| 0 <= j < formats.len() implies !format_is_srgb(
                        #[trigger] formats@[j],
                    ) by {
                        assert(flags@[j] == format_is_srgb(formats@[j]));
                    }
                }
            }
            Some(formats[i])
        },
    }
}

/// The configuration that a fresh render state holds for a window of
/// `width` by `height` pixels: the preferred format, the first presentation
/// mode and the first alpha mode that the surface supports. A surface that
/// supports none of one of them has no configuration.
pub open spec fn initial_config(
    width: u32,
    height: u32,
    formats: Seq<wgpu::TextureFormat>,
    present_modes: Seq<wgpu::PresentMode>,
    alpha_modes: Seq<wgpu::CompositeAlphaMode>,
) -> Result<SurfaceConfig, InitError> {
    if formats.len() == 0 {
        Err(InitError::NoSurfaceFormat)
    } else if present_modes.len() == 0 {
        Err(InitError::NoPresentMode)
    } else if alpha_modes.len() == 0 {
        Err(InitError::NoAlphaMode)
    } else {
        Ok(
            SurfaceConfig {
                width,
                height,
                format: formats[preferred_position(srgb_flags_of(formats))],
                present_mode: present_modes[0],
                alpha_mode: alpha_modes[0],
            },
        )
    }
}

/// Negotiates the surface configuration from what the surface supports.
pub fn negotiate_config(
    width: u32,
    height: u32,
    formats: &Vec<wgpu::TextureFormat>,
    present_modes: &Vec<wgpu::PresentMode>,
    alpha_modes: &Vec<wgpu::CompositeAlphaMode>,
) -> (config: Result<SurfaceConfig, InitError>)
    ensures
        config == initial_config(width, height, formats@, present_modes@, alpha_modes@),
        config is Ok <==> (formats.len() > 0 && present_modes.len() > 0 && alpha_modes.len() > 0),
        config matches Ok(c) ==> c.width == width && c.height == height && formats@.contains(
            c.format,
        ) && c.present_mode == present_modes@[0] && c.alpha_mode == alpha_modes@[0],
{
    let format = match choose_surface_format(formats) {
        Some(format) => format,
        None => {
            return Err(InitError::NoSurfaceFormat);
        },
    };
    if present_modes.len() == 0 {
        return Err(InitError::NoPresentMode);
    }
    if alpha_modes.len() == 0 {
        return Err(InitError::NoAlphaMode);
    }
    Ok(
        SurfaceConfig {
            width,
            height,
            format,
            present_mode: present_modes[0],
            alpha_mode: alpha_modes[0],
        },
    )
}

/// The result of acquiring a surface texture, with the error in the
/// library's own terms.
pub fn acquisition_result(acquired: Result<(), wgpu::SurfaceError>) -> (result: Result<
    (),
    AcquireError,
>)
    ensures
        acquired is Ok <==> result is Ok,
        acquired matches Err(error) ==> result == Err::<(), AcquireError>(
            surface_error_kind(error),
        ),
{
    match acquired {
        Ok(_) => Ok(()),
        Err(error) => Err(error_kind(&error)),
    }
}

} // verus!
