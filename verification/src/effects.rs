//! What the handlers of the effects decide before and after their native
//! work: whether the effect is permitted in the current mode, whether an
//! asset can be loaded, and the texts of the errors that go back to the
//! managed application.

use vstd::prelude::*;
use vstd::string::*;
use crate::config::{Config, ExitErrCode};
use crate::platform_mode::{denial_message, update, PlatformEffect, PlatformMode};

verus! {

/// Takes the request for one effect. A permitted effect makes its
/// transition and leaves the settings as they are. A denied effect leaves
/// the mode as it is and becomes the fatal condition, with the message that
/// names the effect and the mode. Returns whether the effect was permitted.
pub fn request_effect(mode: &mut PlatformMode, config: &mut Config, effect: PlatformEffect) -> (permitted:
    bool)
    ensures
        permitted == old(mode).permits(effect),
        old(config).same_settings(final(config)),
        final(config).should_exit == old(config).should_exit,
        permitted ==> *final(mode) == old(mode).next(effect)
            && final(config).should_exit_msg_code == old(config).should_exit_msg_code,
        !permitted ==> *final(mode) == *old(mode) && final(config).should_exit_msg_code is Some
            && final(config).should_exit_msg_code.unwrap().1 == ExitErrCode::EffectNotPermitted
            && final(config).should_exit_msg_code.unwrap().0@ == denial_message(
            *old(mode),
            effect,
        ),
{
    match update(mode, effect) {
        Ok(()) => true,
        Err(msg) => {
            config.set_fatal(msg, ExitErrCode::EffectNotPermitted);
            false
        },
    }
}

/// The kinds of file that the effects load.
#[derive(Debug, Clone, Copy, PartialEq, Eq, Structural)]
pub enum AssetKind {
    Sound,
    Music,
    Texture,
    Font,
    Text,
}

impl AssetKind {
    /// How the message for a missing file of the kind begins.
    pub open spec fn spec_not_found_prefix(self) -> Seq<char> {
        match self {
            AssetKind::Sound => "Sound file not found: "@,
            AssetKind::Music => "Music file not found: "@,
            AssetKind::Texture => "Texture file not found: "@,
            AssetKind::Font => "Font file not found at "@,
            AssetKind::Text => "File not found: "@,
        }
    }

    /// How the message for a missing file of the kind begins.
    pub fn not_found_prefix(self) -> (prefix: &'static str)
        ensures
            prefix@ == self.spec_not_found_prefix(),
    {
        match self {
            AssetKind::Sound => "Sound file not found: ",
            AssetKind::Music => "Music file not found: ",
            AssetKind::Texture => "Texture file not found: ",
            AssetKind::Font => "Font file not found at ",
            AssetKind::Text => "File not found: ",
        }
    }

    /// The message for a file of the kind that is not there.
    pub fn not_found_message(self, path: &str) -> (msg: String)
        ensures
            msg@ == self.spec_not_found_prefix() + path@,
    {
        let mut msg = String::from_str(self.not_found_prefix());
        msg.append(path);
        msg
    }
}

/// The extension of the path of a file.
#[derive(Debug, Clone, PartialEq, Eq)]
pub enum PathExtension {
    /// The path has none.
    Absent,
    /// The path has one that is no text.
    Unreadable,
    /// The extension, without the dot.
    Text(String),
}

/// The texture formats that the native library reads, by the extension of the
/// file in lower case.
pub open spec fn is_texture_format(extension: Seq<char>) -> bool {
    ||| extension == "png"@
    ||| extension == "bmp"@
    ||| extension == "tga"@
    ||| extension == "jpg"@
    ||| extension == "gif"@
    ||| extension == "qoi"@
    ||| extension == "psd"@
    ||| extension == "dds"@
    ||| extension == "hdr"@
    ||| extension == "ktx"@
    ||| extension == "astc"@
    ||| extension == "pkm"@
    ||| extension == "pvr"@
}

/// Whether the text is one of the two.
fn same_text(a: &str, b: &str) -> (same: bool)
    ensures
        same == (a@ == b@),
{
    let left = String::from_str(a);
    let right = String::from_str(b);
    left == right
}

/// Whether the native library reads textures of the format with this
/// extension, which is given in lower case.
pub fn supported_texture_format(extension: &str) -> (supported: bool)
    ensures
        supported == is_texture_format(extension@),
{
    same_text(extension, "png") || same_text(extension, "bmp") || same_text(extension, "tga")
        || same_text(extension, "jpg") || same_text(extension, "gif") || same_text(
        extension,
        "qoi",
    ) || same_text(extension, "psd") || same_text(extension, "dds") || same_text(extension, "hdr")
        || same_text(extension, "ktx") || same_text(extension, "astc") || same_text(
        extension,
        "pkm",
    ) || same_text(extension, "pvr")
}

/// The text in lower case.
pub uninterp spec fn lowercase_text(text: Seq<char>) -> Seq<char>;

/// `str::to_lowercase`: the text with each character in lower case, as
/// Unicode defines it. It depends on the text alone.
#[verifier::external_body]
fn lowercase(text: &str) -> (lowered: String)
    ensures
        lowered@ == lowercase_text(text@),
{
    text.to_lowercase()
}

/// Why a texture is not loaded.
#[derive(Debug, Clone, PartialEq, Eq)]
pub enum TextureError {
    NotFound,
    NoExtension,
    /// The format is not one that the native library reads. The extension
    /// is given as it is shown.
    UnsupportedFormat(String),
    InvalidPath,
    LoadFailed,
}

/// The extension as the message for an unsupported format shows it.
pub open spec fn shown_extension(extension: PathExtension) -> Seq<char> {
    match extension {
        PathExtension::Text(text) => text@,
        _ => "unknown"@,
    }
}

/// Checks a request to load a texture, given the extension in lower case:
/// the first that holds of a file that is not there, a path without an
/// extension, an extension that is no texture format, and a path that holds
/// a zero character stands in the way.
pub fn check_texture_extension(
    exists: bool,
    extension: PathExtension,
    lowered: &str,
    has_nul: bool,
) -> (r: Result<(), TextureError>)
    ensures
        r is Ok <==> exists && !(extension is Absent) && is_texture_format(lowered@) && !has_nul,
        !exists ==> r == Err::<(), TextureError>(TextureError::NotFound),
        exists && extension is Absent ==> r == Err::<(), TextureError>(TextureError::NoExtension),
        exists && !(extension is Absent) && !is_texture_format(lowered@) ==> r is Err
            && r->Err_0 is UnsupportedFormat && r->Err_0->UnsupportedFormat_0@ == shown_extension(
            extension,
        ),
        exists && !(extension is Absent) && is_texture_format(lowered@) && has_nul ==> r == Err::<
            (),
            TextureError,
        >(TextureError::InvalidPath),
{
    if !exists {
        return Err(TextureError::NotFound);
    }
    match extension {
        PathExtension::Absent => Err(TextureError::NoExtension),
        PathExtension::Unreadable => {
            if !supported_texture_format(lowered) {
                Err(TextureError::UnsupportedFormat(String::from_str("unknown")))
            } else if has_nul {
                Err(TextureError::InvalidPath)
            } else {
                Ok(())
            }
        },
        PathExtension::Text(text) => {
            if !supported_texture_format(lowered) {
                Err(TextureError::UnsupportedFormat(text))
            } else if has_nul {
                Err(TextureError::InvalidPath)
            } else {
                Ok(())
            }
        },
    }
}

/// The text of an extension that is compared with the formats: the
/// extension in lower case, and no text for one that is none.
pub open spec fn compared_extension(extension: PathExtension) -> Seq<char> {
    match extension {
        PathExtension::Text(text) => lowercase_text(text@),
        _ => lowercase_text(""@),
    }
}

/// Checks a request to load a texture before the native library is asked.
/// The extension counts in lower case.
pub fn check_texture_request(exists: bool, extension: PathExtension, has_nul: bool) -> (r: Result<
    (),
    TextureError,
>)
    ensures
        r is Ok <==> exists && !(extension is Absent) && is_texture_format(
            compared_extension(extension),
        ) && !has_nul,
        !exists ==> r == Err::<(), TextureError>(TextureError::NotFound),
        exists && extension is Absent ==> r == Err::<(), TextureError>(TextureError::NoExtension),
        exists && !(extension is Absent) && !is_texture_format(compared_extension(extension))
            ==> r is Err && r->Err_0 is UnsupportedFormat && r->Err_0->UnsupportedFormat_0@
            == shown_extension(extension),
        exists && !(extension is Absent) && is_texture_format(compared_extension(extension))
            && has_nul ==> r == Err::<(), TextureError>(TextureError::InvalidPath),
{
    let lowered = match &extension {
        PathExtension::Text(text) => lowercase(text.as_str()),
        _ => lowercase(""),
    };
    check_texture_extension(exists, extension, lowered.as_str(), has_nul)
}

/// Whether what the native library made of the file is a texture: it has an
/// identifier, a width and a height that are not zero.
pub fn check_loaded_texture(id: u32, width: i32, height: i32) -> (r: Result<(), TextureError>)
    ensures
        r is Ok <==> id != 0 && width != 0 && height != 0,
        r is Err ==> r == Err::<(), TextureError>(TextureError::LoadFailed),
{
    if id == 0 || width == 0 || height == 0 {
        Err(TextureError::LoadFailed)
    } else {
        Ok(())
    }
}

impl TextureError {
    /// The message that the managed application gets, for the texture at
    /// `path`.
    pub open spec fn spec_message(self, path: Seq<char>) -> Seq<char> {
        match self {
            TextureError::NotFound => "Texture file not found: "@ + path,
            TextureError::NoExtension => "Texture file must have an extension"@,
            TextureError::UnsupportedFormat(extension) => "Unsupported texture format: "@
                + extension@
                + ". Supported formats: [\"png\", \"bmp\", \"tga\", \"jpg\", \"gif\", \"qoi\", \"psd\", \"dds\", \"hdr\", \"ktx\", \"astc\", \"pkm\", \"pvr\"]"@,
            TextureError::InvalidPath => "Invalid characters in texture path"@,
            TextureError::LoadFailed => "Failed to load texture: "@ + path
                + ". Verify the file is a valid image."@,
        }
    }

    /// The message that the managed application gets, for the texture at
    /// `path`.
    pub fn message(&self, path: &str) -> (msg: String)
        ensures
            msg@ == self.spec_message(path@),
    {
        match self {
            TextureError::NotFound => {
                let mut msg = String::from_str("Texture file not found: ");
                msg.append(path);
                msg
            },
            TextureError::NoExtension => String::from_str("Texture file must have an extension"),
            TextureError::UnsupportedFormat(extension) => {
                let mut msg = String::from_str("Unsupported texture format: ");
                msg.append(extension.as_str());
                msg.append(
                    ". Supported formats: [\"png\", \"bmp\", \"tga\", \"jpg\", \"gif\", \"qoi\", \"psd\", \"dds\", \"hdr\", \"ktx\", \"astc\", \"pkm\", \"pvr\"]",
                );
                msg
            },
            TextureError::InvalidPath => String::from_str("Invalid characters in texture path"),
            TextureError::LoadFailed => {
                let mut msg = String::from_str("Failed to load texture: ");
                msg.append(path);
                msg.append(". Verify the file is a valid image.");
                msg
            },
        }
    }
}

/// The bytes of a text with each carriage return that stands before a line
/// feed left out.
pub open spec fn unix_lines(bytes: Seq<u8>) -> Seq<u8>
    decreases bytes.len(),
{
    if bytes.len() == 0 {
        Seq::empty()
    } else if bytes.len() >= 2 && bytes[0] == 13 && bytes[1] == 10 {
        seq![10u8] + unix_lines(bytes.skip(2))
    } else {
        seq![bytes[0]] + unix_lines(bytes.skip(1))
    }
}

/// The contents of a file as the managed application gets them: each line
/// ends with a line feed alone.
pub fn normalize_line_endings(bytes: &Vec<u8>) -> (text: Vec<u8>)
    ensures
        text@ == unix_lines(bytes@),
{
    let mut text: Vec<u8> = Vec::new();
    let mut i: usize = 0;
    proof {
        assert(bytes@.skip(0) =~= bytes@);
        assert(text@ + unix_lines(bytes@) =~= unix_lines(bytes@));
    }
    while i < bytes.len()
        invariant
            i <= bytes@.len(),
            text@ + unix_lines(bytes@.skip(i as int)) == unix_lines(bytes@),
        decreases bytes@.len() - i,
    {
        let ghost rest = bytes@.skip(i as int);
        let ghost before = text@;
        if bytes[i] == 13 && i + 1 < bytes.len() && bytes[i + 1] == 10 {
            text.push(10);
            proof {
                assert(rest[0] == 13 && rest[1] == 10);
                assert(rest.skip(2) =~= bytes@.skip(i + 2));
                assert(text@ + unix_lines(bytes@.skip(i + 2)) =~= before + unix_lines(rest));
            }
            i = i + 2;
        } else {
            text.push(bytes[i]);
            proof {
                assert(rest[0] == bytes@[i as int]);
                assert(rest.len() >= 2 ==> rest[1] == bytes@[i + 1]);
                assert(rest.skip(1) =~= bytes@.skip(i + 1));
                assert(text@ + unix_lines(bytes@.skip(i + 1)) =~= before + unix_lines(rest));
            }
            i = i + 1;
        }
    }
    proof {
        assert(bytes@.skip(i as int).len() == 0);
        assert(text@ + unix_lines(bytes@.skip(i as int)) =~= text@);
    }
    text
}

/// Text that already has line feeds alone stays as it is.
pub proof fn lemma_unix_lines_keeps_text_without_carriage_return(bytes: Seq<u8>)
    requires
        forall|i: int| 0 <= i < bytes.len() ==> bytes[i] != 13,
    ensures
        unix_lines(bytes) == bytes,
    decreases bytes.len(),
{
    if bytes.len() > 0 {
        lemma_unix_lines_keeps_text_without_carriage_return(bytes.skip(1));
        assert(seq![bytes[0]] + bytes.skip(1) =~= bytes);
    }
}

} // verus!
