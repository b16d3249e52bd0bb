//! A typed layer over the Little CMS colour engine: pixel layouts, tag
//! dispatch, validation of curve, stage and pipeline parameters, and the
//! flags that select a transform's cache behaviour.

pub mod context;
pub mod error;
pub mod flags;
pub mod intent;
pub mod locale;
pub mod namedcolor;
pub mod pipeline;
pub mod pixel;
pub mod profile;
pub mod stage;
pub mod tag;
pub mod text;
pub mod tonecurve;
pub mod transform;

pub use crate::error::{Error, LCMSResult};
pub use crate::flags::{AllowCache, CacheFlag, DisallowCache, Flags};
pub use crate::tag::{tag_data_aligned, TagKind, TagSignature};
pub use crate::pixel::{
    PixelFormat, TYPE_CMYK_16, TYPE_CMYK_8, TYPE_GRAY_16, TYPE_GRAY_8, TYPE_RGBA_8, TYPE_RGB_16, TYPE_RGB_8,
    TYPE_RGB_8_PLANAR, TYPE_RGB_FLT,
};
pub use crate::transform::{check_format, check_formats, num_pixels, pixels_in, FormatError, PartialPixel};
pub use crate::text::{
    bytes_with_nul, text_from_bytes, text_from_c_buffer, text_from_wide, text_from_wide_chars, until_nul, wide_len,
    wide_with_nul,
};
pub use crate::pipeline::{channels_chain, eval_buffers_fit};
pub use crate::stage::{check_clut, check_matrix};
pub use crate::tonecurve::{check_parametric, min_parameters, tabulated_len};
pub use crate::intent::{reported_intents, Intent};
pub use crate::locale::Locale;
pub use crate::context::{Context, GlobalContext};
pub use crate::namedcolor::NamedColorInfo;
pub use crate::profile::{check_icc_data, color_space_or_default, info_wchars, saved_profile, saved_size, SIG_1COLOR_DATA};
