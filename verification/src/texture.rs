//! Resolution of a texture object into a request for its image: which
//! addressing modes the sampler gets, in which format the image is encoded,
//! and where its bytes are found.
//!
//! Reading and decoding the bytes is the caller's part. Paths are asset
//! paths: their separator is `/` on every platform.

use vstd::prelude::*;
use crate::error::FbxLoadingError;
use crate::loader::Loader;
use crate::text::{chars_of, string_of};

verus! {

/// How a texture continues outside the unit square, as the document says it.
#[derive(Clone, Copy, Debug, PartialEq, Eq)]
pub enum WrapMode {
    Repeat,
    Clamp,
}

/// How a sampler addresses texels outside the unit square.
#[derive(Clone, Copy, Debug, PartialEq, Eq)]
pub enum AddressMode {
    Repeat,
    ClampToEdge,
}

/// The addressing mode for a wrap mode.
pub open spec fn address_mode_of(wrap: WrapMode) -> AddressMode {
    match wrap {
        WrapMode::Repeat => AddressMode::Repeat,
        WrapMode::Clamp => AddressMode::ClampToEdge,
    }
}

/// Turns a wrap mode of the document into the addressing mode of a sampler.
pub fn address_mode(wrap: WrapMode) -> (mode: AddressMode)
    ensures
        mode == address_mode_of(wrap),
{
    match wrap {
        WrapMode::Repeat => AddressMode::Repeat,
        WrapMode::Clamp => AddressMode::ClampToEdge,
    }
}

/// A video clip object: the image that backs a texture.
pub struct ClipObject {
    /// The file name of the image relative to the document, as the authoring
    /// tool wrote it: its separators may be backslashes.
    pub relative_filename: Option<String>,
    /// Whether the document embeds the image's bytes.
    pub has_content: bool,
}

/// A texture object of the document.
pub struct TextureObject {
    /// The object's name.
    pub name: Option<String>,
    /// The object's id.
    pub id: i64,
    /// The wrap mode along U; `None` where it cannot be read.
    pub wrap_mode_u: Option<WrapMode>,
    /// The wrap mode along V; `None` where it cannot be read.
    pub wrap_mode_v: Option<WrapMode>,
    /// The clip that backs the texture.
    pub video_clip: Option<ClipObject>,
}

/// Where the bytes of an image are found.
#[derive(Debug, PartialEq, Eq)]
pub enum ImageSource {
    /// In the document itself, as the content of the clip.
    Embedded,
    /// In the file at this asset path.
    External(String),
}

/// What is needed to produce the image of a clip.
#[derive(Debug, PartialEq, Eq)]
pub struct ImageRequest {
    /// The extension of the file name, in lower case: it declares the
    /// encoding of the image.
    pub extension: String,
    /// Where the bytes are found.
    pub source: ImageSource,
}

/// What is needed to produce a texture.
#[derive(Debug, PartialEq, Eq)]
pub struct TextureRequest {
    /// The sampler's addressing mode along U.
    pub address_mode_u: AddressMode,
    /// The sampler's addressing mode along V.
    pub address_mode_v: AddressMode,
    /// The image of the texture.
    pub image: ImageRequest,
}

/// `path` with every backslash replaced by a slash.
pub open spec fn normalized(path: Seq<char>) -> Seq<char> {
    Seq::new(path.len(), |i: int| if path[i] == '\\' { '/' } else { path[i] })
}

/// The index of the last `c` in `s`.
pub open spec fn last_index_of(s: Seq<char>, c: char) -> Option<int>
    decreases s.len(),
{
    if s.len() == 0 {
        None
    } else if s.last() == c {
        Some(s.len() - 1)
    } else {
        last_index_of(s.drop_last(), c)
    }
}

/// The directory of a path: what stands before its last slash, and nothing
/// where it has no slash.
pub open spec fn parent_dir(path: Seq<char>) -> Seq<char> {
    match last_index_of(path, '/') {
        Some(i) => path.subrange(0, i),
        None => Seq::empty(),
    }
}

/// The file name of a path: what stands behind its last slash.
pub open spec fn file_name(path: Seq<char>) -> Seq<char> {
    match last_index_of(path, '/') {
        Some(i) => path.subrange(i + 1, path.len() as int),
        None => path,
    }
}

/// `c` in lower case, where it is an upper-case ASCII letter.
pub open spec fn ascii_lower(c: char) -> char {
    if 'A' <= c <= 'Z' {
        ((c as u8) + 32) as char
    } else {
        c
    }
}

/// The extension of a path: what stands behind the last dot of its file
/// name, in lower case. A file name without a dot has none, nor one whose
/// only dot is its first character.
pub open spec fn extension(path: Seq<char>) -> Option<Seq<char>> {
    let name = file_name(path);
    match last_index_of(name, '.') {
        Some(i) if i > 0 => Some(
            Seq::new((name.len() - i - 1) as nat, |k: int| ascii_lower(name[i + 1 + k])),
        ),
        _ => None,
    }
}

/// The path `relative` taken from the directory `dir`. A path that starts
/// with a slash is absolute and stands for itself.
pub open spec fn joined(dir: Seq<char>, relative: Seq<char>) -> Seq<char> {
    if dir.len() == 0 || (relative.len() > 0 && relative[0] == '/') {
        relative
    } else if dir.last() == '/' {
        dir + relative
    } else {
        dir + seq!['/'] + relative
    }
}

/// The asset path of the file that a document at `document_path` refers to
/// as `relative_filename`: the file name with slashes for backslashes,
/// taken from the document's own directory.
pub open spec fn resolved_path(document_path: Seq<char>, relative_filename: Seq<char>) -> Seq<
    char,
> {
    joined(parent_dir(document_path), normalized(relative_filename))
}

/// Finds the last `c` in `chars`.
pub fn find_last(chars: &Vec<char>, c: char) -> (found: Option<usize>)
    ensures
        match found {
            Some(i) => last_index_of(chars@, c) == Some(i as int) && i < chars@.len(),
            None => last_index_of(chars@, c) is None,
        },
{
    let mut i: usize = chars.len();
    assert(chars@.take(i as int) =~= chars@);
    while i > 0
        invariant
            i <= chars@.len(),
            last_index_of(chars@, c) == last_index_of(chars@.take(i as int), c),
        decreases i,
    {
        if chars[i - 1] == c {
            assert(chars@.take(i as int).last() == c);
            return Some(i - 1);
        }
        assert(chars@.take(i as int).drop_last() =~= chars@.take(i - 1));
        i = i - 1;
    }
    assert(chars@.take(0).len() == 0);
    None
}

/// Replaces every backslash of `path` by a slash.
pub fn normalize_separators(path: &str) -> (clean: Vec<char>)
    ensures
        clean@ == normalized(path@),
{
    let chars = chars_of(path);
    let mut clean: Vec<char> = Vec::new();
    let mut i: usize = 0;
    while i < chars.len()
        invariant
            i <= chars@.len(),
            chars@ == path@,
            clean@ == normalized(path@).take(i as int),
        decreases chars@.len() - i,
    {
        let c = chars[i];
        if c == '\\' {
            clean.push('/');
        } else {
            clean.push(c);
        }
        i = i + 1;
        assert(clean@ =~= normalized(path@).take(i as int));
    }
    assert(normalized(path@).take(chars@.len() as int) =~= normalized(path@));
    clean
}

/// The lower-case extension of the path `chars`, if it has one.
pub fn extension_of(chars: &Vec<char>) -> (ext: Option<String>)
    ensures
        match ext {
            Some(e) => extension(chars@) == Some(e@),
            None => extension(chars@) is None,
        },
{
    let n = chars.len();
    let start: usize = match find_last(chars, '/') {
        Some(i) => i + 1,
        None => 0,
    };
    let ghost name = file_name(chars@);
    assert(name =~= chars@.subrange(start as int, chars@.len() as int));
    let mut dot: usize = n;
    let mut found = false;
    let mut i: usize = n;
    assert(name.take(i - start) =~= name);
    while i > start && !found
        invariant
            start <= i <= chars@.len(),
            name == chars@.subrange(start as int, chars@.len() as int),
            !found ==> last_index_of(name, '.') == last_index_of(
                name.take(i - start),
                '.',
            ),
            found ==> start <= dot < chars@.len() && last_index_of(name, '.') == Some(
                dot - start,
            ),
        decreases i - start + if found { 0int } else { 1int },
    {
        if chars[i - 1] == '.' {
            assert(name.take(i - start).last() == '.');
            dot = i - 1;
            found = true;
        } else {
            assert(name.take(i - start).drop_last() =~= name.take(i - 1 - start));
            i = i - 1;
        }
    }
    if !found {
        assert(name.take(0).len() == 0);
        return None;
    }
    if dot == start {
        return None;
    }
    let mut ext = String::new();
    let mut k: usize = dot + 1;
    while k < chars.len()
        invariant
            start <= dot < k <= chars@.len(),
            name == chars@.subrange(start as int, chars@.len() as int),
            ext@ == Seq::new(
                (k - dot - 1) as nat,
                |j: int| ascii_lower(name[dot - start + 1 + j]),
            ),
        decreases chars@.len() - k,
    {
        ext.push(to_ascii_lower(chars[k]));
        k = k + 1;
        assert(ext@ =~= Seq::new(
            (k - dot - 1) as nat,
            |j: int| ascii_lower(name[dot - start + 1 + j]),
        ));
    }
    assert(ext@ =~= extension(chars@)->0);
    Some(ext)
}

/// Turns an upper-case ASCII letter into lower case.
pub fn to_ascii_lower(c: char) -> (lower: char)
    ensures
        lower == ascii_lower(c),
{
    if c >= 'A' && c <= 'Z' {
        ((c as u8) + 32) as char
    } else {
        c
    }
}

/// Resolves the file that a document at `document_path` refers to as
/// `relative_filename` to an asset path.
pub fn resolve_path(document_path: &str, relative_filename: &str) -> (path: String)
    ensures
        path@ == resolved_path(document_path@, relative_filename@),
{
    let document = chars_of(document_path);
    let relative = normalize_separators(relative_filename);
    let dir_len: usize = match find_last(&document, '/') {
        Some(i) => i,
        None => 0,
    };
    let ghost dir = parent_dir(document_path@);
    assert(dir =~= document@.subrange(0, dir_len as int));
    let absolute = relative.len() > 0 && relative[0] == '/';
    let mut path = if dir_len == 0 || absolute {
        String::new()
    } else {
        let mut start = string_of(&document, 0, dir_len);
        if document[dir_len - 1] != '/' {
            start.push('/');
        }
        start
    };
    let tail = string_of(&relative, 0, relative.len());
    assert(relative@.subrange(0, relative@.len() as int) =~= relative@);
    path.append(tail.as_str());
    assert(path@ =~= resolved_path(document_path@, relative_filename@));
    path
}

impl ClipObject {
    /// The error with which no image can be requested for the clip, or
    /// `None` where one can: a clip without a file name has no image data,
    /// and a file name without an extension declares no encoding.
    pub open spec fn request_error(self) -> Option<FbxLoadingError> {
        match self.relative_filename {
            None => Some(FbxLoadingError::TextureDataUnavailable),
            Some(f) => if extension(normalized(f@)) is None {
                Some(FbxLoadingError::ImageDecodeFailure)
            } else {
                None
            },
        }
    }

    /// `request` asks for the image of the clip, for a document at
    /// `document_path`: embedded content is preferred to the file.
    pub open spec fn requested_by(self, document_path: Seq<char>, request: ImageRequest) -> bool {
        &&& self.relative_filename matches Some(f)
        &&& extension(normalized(f@)) == Some(request.extension@)
        &&& if self.has_content {
            request.source is Embedded
        } else {
            request.source matches ImageSource::External(p) && p@ == resolved_path(
                document_path,
                f@,
            )
        }
    }
}

impl TextureObject {
    /// A texture request can be made: both wrap modes can be read, and the
    /// texture has a clip for which an image can be requested.
    pub open spec fn loadable(self) -> bool {
        &&& self.wrap_mode_u is Some
        &&& self.wrap_mode_v is Some
        &&& self.video_clip matches Some(clip) && clip.request_error() is None
    }

    /// `e` is the error with which the texture request fails. The wrap mode
    /// along U is looked at first, then the one along V, then the clip.
    pub open spec fn fails_with(self, e: FbxLoadingError) -> bool {
        if self.wrap_mode_u is None {
            e matches FbxLoadingError::Other(s) && s@ == "Failed to load wrap mode for U axis"@
        } else if self.wrap_mode_v is None {
            e matches FbxLoadingError::Other(s) && s@ == "Failed to load wrap mode for V axis"@
        } else {
            match self.video_clip {
                None => e == FbxLoadingError::TextureDataUnavailable,
                Some(clip) => clip.request_error() == Some(e),
            }
        }
    }
}

impl Loader {
    /// Works out how the image of `clip` is to be produced: in which format
    /// it is encoded, and whether its bytes are embedded in the document or
    /// lie in a file beside it.
    pub fn load_video_clip(&self, clip: &ClipObject) -> (result: Result<
        ImageRequest,
        FbxLoadingError,
    >)
        ensures
            match result {
                Ok(request) => clip.request_error() is None && clip.requested_by(
                    self.document_path@,
                    request,
                ),
                Err(e) => clip.request_error() == Some(e),
            },
    {
        let relative_filename = match &clip.relative_filename {
            Some(f) => f,
            None => {
                return Err(FbxLoadingError::TextureDataUnavailable);
            },
        };
        let clean = normalize_separators(relative_filename.as_str());
        let extension = match extension_of(&clean) {
            Some(e) => e,
            None => {
                return Err(FbxLoadingError::ImageDecodeFailure);
            },
        };
        let source = if clip.has_content {
            ImageSource::Embedded
        } else {
            ImageSource::External(
                resolve_path(self.document_path.as_str(), relative_filename.as_str()),
            )
        };
        Ok(ImageRequest { extension, source })
    }

    /// Works out how `texture` is to be produced: the addressing modes of its
    /// sampler and the request for its image.
    pub fn get_texture(&self, texture: &TextureObject) -> (result: Result<
        TextureRequest,
        FbxLoadingError,
    >)
        ensures
            result is Ok <==> texture.loadable(),
            match result {
                Ok(request) => {
                    &&& request.address_mode_u == address_mode_of(texture.wrap_mode_u->0)
                    &&& request.address_mode_v == address_mode_of(texture.wrap_mode_v->0)
                    &&& texture.video_clip->0.requested_by(self.document_path@, request.image)
                },
                Err(e) => texture.fails_with(e),
            },
    {
        let address_mode_u = match texture.wrap_mode_u {
            Some(wrap) => address_mode(wrap),
            None => {
                return Err(
                    FbxLoadingError::Other(String::from_str("Failed to load wrap mode for U axis")),
                );
            },
        };
        let address_mode_v = match texture.wrap_mode_v {
            Some(wrap) => address_mode(wrap),
            None => {
                return Err(
                    FbxLoadingError::Other(String::from_str("Failed to load wrap mode for V axis")),
                );
            },
        };
        let clip = match &texture.video_clip {
            Some(clip) => clip,
            None => {
                return Err(FbxLoadingError::TextureDataUnavailable);
            },
        };
        match self.load_video_clip(clip) {
            Ok(image) => Ok(TextureRequest { address_mode_u, address_mode_v, image }),
            Err(e) => Err(e),
        }
    }
}

} // verus!
