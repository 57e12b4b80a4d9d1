//! Command-line configuration: the resize policy, the colour mode, and the
//! size of the grid that a terminal of a given size calls for.

use vstd::prelude::*;
use vstd::string::*;

verus! {

/// How an image is fitted to the cells available.
#[derive(Clone, Copy, Debug, PartialEq, Eq, Structural)]
pub enum ResizeType {
    /// Keep the aspect ratio and stay inside the box; one axis may be left
    /// partly empty.
    Fit,
    /// Keep the aspect ratio, cover the whole box and crop what overflows.
    CropToFill,
    /// Stretch to the box exactly, ignoring the aspect ratio.
    ScaleToFill,
}

/// Which colours the grid holds.
#[derive(Clone, Copy, Debug, PartialEq, Eq, Structural)]
pub enum ImageType {
    /// The red, green and blue samples of the image.
    Color,
    /// The luminance of each pixel, repeated in all three channels.
    Gray,
}

/// How grid rows map to terminal rows.
#[derive(Clone, Copy, Debug, PartialEq, Eq, Structural)]
pub enum RenderMode {
    /// One glyph for each grid cell.
    FullCell,
    /// One glyph for each pair of vertically adjacent grid cells.
    HalfBlock,
}

/// What kind of file is shown.
#[derive(Clone, Copy, Debug, PartialEq, Eq, Structural)]
pub enum MediaKind {
    /// A single image.
    Still,
    /// A GIF, played frame by frame.
    Animation,
}

/// Why the arguments were rejected.
#[derive(Clone, Copy, Debug, PartialEq, Eq, Structural)]
pub enum ArgumentError {
    /// No image path was given.
    MissingPath,
    /// The resize type is none of `f`, `c`, `s`.
    UnknownResizeType,
    /// The image type is neither `C` nor `G`.
    UnknownImageType,
}

/// Whether a token consists of the single character `c`.
pub open spec fn is_token(token: Seq<char>, c: char) -> bool {
    token.len() == 1 && token[0] == c
}

/// Whether `s` consists of the single character `c`.
fn is_single_char(s: &str, c: char) -> (yes: bool)
    ensures
        yes == is_token(s@, c),
{
    s.unicode_len() == 1 && s.get_char(0) == c
}

impl ResizeType {
    /// The resize type that a token selects: `f`, `c` or `s`.
    pub open spec fn parse(token: Seq<char>) -> Option<ResizeType> {
        if is_token(token, 'f') {
            Some(ResizeType::Fit)
        } else if is_token(token, 'c') {
            Some(ResizeType::CropToFill)
        } else if is_token(token, 's') {
            Some(ResizeType::ScaleToFill)
        } else {
            None
        }
    }

    /// Reads a resize type from its command-line token.
    pub fn from_str(s: &str) -> (out: Result<ResizeType, ArgumentError>)
        ensures
            out == match Self::parse(s@) {
                Some(t) => Ok::<ResizeType, ArgumentError>(t),
                None => Err(ArgumentError::UnknownResizeType),
            },
    {
        if is_single_char(s, 'f') {
            Ok(ResizeType::Fit)
        } else if is_single_char(s, 'c') {
            Ok(ResizeType::CropToFill)
        } else if is_single_char(s, 's') {
            Ok(ResizeType::ScaleToFill)
        } else {
            Err(ArgumentError::UnknownResizeType)
        }
    }
}

impl Default for ResizeType {
    fn default() -> (out: ResizeType)
        ensures
            out == ResizeType::Fit,
    {
        ResizeType::Fit
    }
}

impl ImageType {
    /// The image type that a token selects: `C` or `G`.
    pub open spec fn parse(token: Seq<char>) -> Option<ImageType> {
        if is_token(token, 'C') {
            Some(ImageType::Color)
        } else if is_token(token, 'G') {
            Some(ImageType::Gray)
        } else {
            None
        }
    }

    /// Reads an image type from its command-line token.
    pub fn from_str(s: &str) -> (out: Result<ImageType, ArgumentError>)
        ensures
            out == match Self::parse(s@) {
                Some(t) => Ok::<ImageType, ArgumentError>(t),
                None => Err(ArgumentError::UnknownImageType),
            },
    {
        if is_single_char(s, 'C') {
            Ok(ImageType::Color)
        } else if is_single_char(s, 'G') {
            Ok(ImageType::Gray)
        } else {
            Err(ArgumentError::UnknownImageType)
        }
    }
}

impl Default for ImageType {
    fn default() -> (out: ImageType)
        ensures
            out == ImageType::Color,
    {
        ImageType::Color
    }
}

impl MediaKind {
    /// A file is an animation exactly when its extension is `gif`, in
    /// lower case.
    pub open spec fn of_extension(extension: Option<Seq<char>>) -> MediaKind {
        match extension {
            Some(e) => if e.len() == 3 && e[0] == 'g' && e[1] == 'i' && e[2] == 'f' {
                MediaKind::Animation
            } else {
                MediaKind::Still
            },
            None => MediaKind::Still,
        }
    }

    /// Tells the kind of file from the extension of its path, if it has one.
    pub fn from_extension(extension: Option<&str>) -> (kind: MediaKind)
        ensures
            kind == Self::of_extension(
                match extension {
                    Some(e) => Some(e@),
                    None => None,
                },
            ),
    {
        match extension {
            Some(e) => {
                if e.unicode_len() == 3 && e.get_char(0) == 'g' && e.get_char(1) == 'i'
                    && e.get_char(2) == 'f' {
                    MediaKind::Animation
                } else {
                    MediaKind::Still
                }
            },
            None => MediaKind::Still,
        }
    }
}

impl RenderMode {
    /// The render mode for each kind of file. Stills and animations are both
    /// drawn with half blocks, so that every terminal row shows two grid rows.
    pub open spec fn of_media(kind: MediaKind) -> RenderMode {
        RenderMode::HalfBlock
    }

    /// The render mode for a kind of file.
    pub fn for_media(kind: MediaKind) -> (mode: RenderMode)
        ensures
            mode == Self::of_media(kind),
    {
        RenderMode::HalfBlock
    }

    /// How many grid rows one terminal row shows.
    pub open spec fn rows_per_line(self) -> int {
        match self {
            RenderMode::FullCell => 1,
            RenderMode::HalfBlock => 2,
        }
    }
}

/// The text of the usage message.
pub open spec fn help_text() -> Seq<char> {
    "Terminal image viewer (tiv)\n\
     ---------------------------\n\
     tiv-rs <path_to_image> (resize_type (image_type))\n\
     \tresize type ... f (fit; default) | c (crop to fill) | s (scale to fill)\n\
     \timage type  ... C (color; default) | G (gray))"@
}

/// The usage message.
pub fn get_help() -> (text: String)
    ensures
        text@ == help_text(),
{
    "Terminal image viewer (tiv)\n\
     ---------------------------\n\
     tiv-rs <path_to_image> (resize_type (image_type))\n\
     \tresize type ... f (fit; default) | c (crop to fill) | s (scale to fill)\n\
     \timage type  ... C (color; default) | G (gray))".to_owned()
}

/// What one invocation asks for.
#[derive(Debug)]
pub struct Config {
    /// The path of the image file.
    pub path: String,
    /// How the image is fitted to the terminal.
    pub resize_type: ResizeType,
    /// The terminal's columns and rows.
    pub term_size: (u16, u16),
    /// Which colours are shown.
    pub image_type: ImageType,
}

/// The mathematical content of a `Config`.
pub struct ConfigView {
    pub path: Seq<char>,
    pub resize_type: ResizeType,
    pub term_size: (u16, u16),
    pub image_type: ImageType,
}

impl View for Config {
    type V = ConfigView;

    open spec fn view(&self) -> ConfigView {
        ConfigView {
            path: self.path@,
            resize_type: self.resize_type,
            term_size: self.term_size,
            image_type: self.image_type,
        }
    }
}

impl ConfigView {
    /// The width and height of the grid for a terminal of this size: one
    /// column for each terminal column, and one or two rows for each
    /// terminal row, as the render mode has it.
    pub open spec fn target_size(self, mode: RenderMode) -> (u32, u32) {
        (self.term_size.0 as u32, (mode.rows_per_line() * self.term_size.1) as u32)
    }
}

/// What the arguments `args`, the program's name first, ask for on a
/// terminal of size `term_size`.
///
/// The path is required. The resize type and the image type are optional
/// and default to `Fit` and `Color`; arguments after the fourth are ignored.
/// An unknown resize type is reported before an unknown image type.
pub open spec fn resolved(args: Seq<Seq<char>>, term_size: (u16, u16)) -> Result<
    ConfigView,
    ArgumentError,
> {
    if args.len() < 2 {
        Err(ArgumentError::MissingPath)
    } else {
        let resize_type = if args.len() >= 3 {
            ResizeType::parse(args[2])
        } else {
            Some(ResizeType::Fit)
        };
        let image_type = if args.len() >= 4 {
            ImageType::parse(args[3])
        } else {
            Some(ImageType::Color)
        };
        match (resize_type, image_type) {
            (None, _) => Err(ArgumentError::UnknownResizeType),
            (Some(_), None) => Err(ArgumentError::UnknownImageType),
            (Some(r), Some(i)) => Ok(
                ConfigView { path: args[1], resize_type: r, term_size, image_type: i },
            ),
        }
    }
}

impl Config {
    /// Reads the configuration from the arguments, the program's name
    /// first, for a terminal of `term_size` columns and rows.
    pub fn from_vec(value: &Vec<String>, term_size: (u16, u16)) -> (out: Result<
        Config,
        ArgumentError,
    >)
        ensures
            out matches Ok(config) ==> resolved(value.deep_view(), term_size) == Ok::<
                ConfigView,
                ArgumentError,
            >(config@),
            out matches Err(e) ==> resolved(value.deep_view(), term_size) == Err::<
                ConfigView,
                ArgumentError,
            >(e),
    {
        let n = value.len();
        if n < 2 {
            return Err(ArgumentError::MissingPath);
        }
        let resize_type = if n >= 3 {
            match ResizeType::from_str(value[2].as_str()) {
                Ok(t) => t,
                Err(e) => {
                    return Err(e);
                },
            }
        } else {
            ResizeType::Fit
        };
        let image_type = if n >= 4 {
            match ImageType::from_str(value[3].as_str()) {
                Ok(t) => t,
                Err(e) => {
                    return Err(e);
                },
            }
        } else {
            ImageType::Color
        };
        Ok(Config { path: value[1].clone(), resize_type, term_size, image_type })
    }

    /// The width and height of the grid to sample for this terminal.
    pub fn target_size(&self, mode: RenderMode) -> (size: (u32, u32))
        ensures
            size == self@.target_size(mode),
    {
        let width: u32 = self.term_size.0 as u32;
        let rows: u32 = self.term_size.1 as u32;
        match mode {
            RenderMode::FullCell => (width, rows),
            RenderMode::HalfBlock => (width, 2 * rows),
        }
    }
}

} // verus!
