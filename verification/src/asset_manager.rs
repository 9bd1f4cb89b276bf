//! The asset cache: textures and shaders, remembered by path.

use vstd::prelude::*;
use crate::decode::decode_image;
use crate::texture::{ImageData, TextureHandle};

verus! {

/// Why an asset could not be loaded.
#[derive(Clone, Copy, Debug, PartialEq, Eq, Structural)]
pub enum AssetError {
    /// The image file could not be read, or not be decoded.
    DecodeFailure,
    /// The shader file could not be read.
    ShaderUnreadable,
}

/// Identity of a compiled shader program. Two handles refer to the same
/// program exactly when their identifiers are equal.
#[derive(Clone, Copy, Debug, PartialEq, Eq, Structural)]
pub struct ShaderHandle {
    pub id: usize,
}

/// The textures that an asset manager knows of: the paths that textures
/// were loaded from, in the order of loading, beside each path its handle,
/// and every handle that was handed out so far, cached or not.
pub struct TextureCache {
    pub paths: Seq<Seq<char>>,
    pub handles: Seq<TextureHandle>,
    pub issued: Seq<TextureHandle>,
}

impl TextureCache {
    /// No path occurs twice and every path has its handle. A handle that was
    /// handed out has its position among the issued handles as identifier.
    /// The cached handles were handed out one after another.
    pub open spec fn wf(self) -> bool {
        &&& self.paths.no_duplicates()
        &&& self.handles.len() == self.paths.len()
        &&& forall|k: int| 0 <= k < self.issued.len() ==> (#[trigger] self.issued[k]).id == k
        &&& forall|i: int|
            0 <= i < self.handles.len() ==> (#[trigger] self.handles[i]).id < self.issued.len()
        &&& forall|i: int, j: int|
            0 <= i < j < self.handles.len() ==> (#[trigger] self.handles[i]).id < (
            #[trigger] self.handles[j]).id
    }

    /// The handle that is cached for `path`, if any.
    pub open spec fn lookup(self, path: Seq<char>) -> Option<TextureHandle> {
        if self.paths.contains(path) {
            Some(self.handles[self.paths.index_of(path)])
        } else {
            None
        }
    }

    /// The handle that is handed out next, for a texture of the given size.
    pub open spec fn next_handle(self, width: u32, height: u32) -> TextureHandle {
        TextureHandle { id: self.issued.len() as usize, width, height }
    }

    /// What loading `path` does to the cache and returns, where `size` is
    /// the width and height of the decoded image, or `None` if decoding
    /// failed. A cached path is answered from the cache, whatever `size` is.
    /// Otherwise a failed decode is reported and changes nothing, and a
    /// decoded image gets the next handle and is remembered under the exact
    /// path.
    pub open spec fn load(self, path: Seq<char>, size: Option<(u32, u32)>) -> (
        TextureCache,
        Result<TextureHandle, AssetError>,
    ) {
        match self.lookup(path) {
            Some(handle) => (self, Ok(handle)),
            None => match size {
                None => (self, Err(AssetError::DecodeFailure)),
                Some((width, height)) => {
                    let handle = self.next_handle(width, height);
                    (
                        TextureCache {
                            paths: self.paths.push(path),
                            handles: self.handles.push(handle),
                            issued: self.issued.push(handle),
                        },
                        Ok(handle),
                    )
                },
            },
        }
    }

    /// What handing out a handle for a texture that is not cached does and
    /// returns: the texture gets the next handle, and no path is remembered.
    pub open spec fn allot(self, width: u32, height: u32) -> (TextureCache, TextureHandle) {
        let handle = self.next_handle(width, height);
        (TextureCache { issued: self.issued.push(handle), ..self }, handle)
    }
}

/// Loading keeps a texture cache well formed.
pub proof fn lemma_load_keeps_wf(cache: TextureCache, path: Seq<char>, size: Option<(u32, u32)>)
    requires
        cache.wf(),
        cache.issued.len() < usize::MAX,
    ensures
        cache.load(path, size).0.wf(),
{
    let after = cache.load(path, size).0;
    if cache.lookup(path) is None && size is Some {
        assert forall|i: int, j: int|
            0 <= i < after.paths.len() && 0 <= j < after.paths.len() && i
                != j implies after.paths[i] != after.paths[j] by {
            if i < cache.paths.len() {
                assert(cache.paths.contains(cache.paths[i]));
            }
            if j < cache.paths.len() {
                assert(cache.paths.contains(cache.paths[j]));
            }
        }
        assert forall|i: int, j: int| 0 <= i < j < after.handles.len() implies (
        #[trigger] after.handles[i]).id < (#[trigger] after.handles[j]).id by {
            assert(cache.handles[i].id < cache.issued.len());
            if j < cache.handles.len() {
                assert(cache.handles[i].id < cache.handles[j].id);
            }
        }
        assert forall|i: int| 0 <= i < after.handles.len() implies (
        #[trigger] after.handles[i]).id < after.issued.len() by {
            if i < cache.handles.len() {
                assert(cache.handles[i].id < cache.issued.len());
            }
        }
    }
}

/// Handing out a handle for a texture that is not cached keeps a texture
/// cache well formed.
pub proof fn lemma_allot_keeps_wf(cache: TextureCache, width: u32, height: u32)
    requires
        cache.wf(),
        cache.issued.len() < usize::MAX,
    ensures
        cache.allot(width, height).0.wf(),
{
    let after = cache.allot(width, height).0;
    assert forall|i: int| 0 <= i < after.handles.len() implies (#[trigger] after.handles[i]).id
        < after.issued.len() by {
        assert(cache.handles[i].id < cache.issued.len());
    }
}

/// A handle that is handed out is a new one: its identifier differs from
/// that of every handle handed out before, be it for a cached texture or for
/// one that is not cached. This holds of a load that misses the cache and of
/// a texture that is loaded without the cache alike.
pub proof fn lemma_next_handle_is_new(cache: TextureCache, width: u32, height: u32)
    requires
        cache.wf(),
        cache.issued.len() < usize::MAX,
    ensures
        forall|k: int|
            0 <= k < cache.issued.len() ==> (#[trigger] cache.issued[k]).id != cache.next_handle(
                width,
                height,
            ).id,
        forall|i: int|
            0 <= i < cache.handles.len() ==> (#[trigger] cache.handles[i]).id != cache.next_handle(
                width,
                height,
            ).id,
{
}

/// Two textures that are loaded without the cache, one after the other, get
/// handles with different identifiers, also when they are loaded from the
/// same file, and neither load changes what is cached.
pub proof fn lemma_uncached_loads_differ(
    cache: TextureCache,
    first: (u32, u32),
    second: (u32, u32),
)
    requires
        cache.wf(),
        cache.issued.len() + 1 < usize::MAX,
    ensures
        cache.allot(first.0, first.1).1.id != cache.allot(first.0, first.1).0.allot(
            second.0,
            second.1,
        ).1.id,
        cache.allot(first.0, first.1).0.paths == cache.paths,
        cache.allot(first.0, first.1).0.handles == cache.handles,
{
}

/// A successful load leaves its path cached with the handle it returned, and
/// every path that was cached before keeps its handle.
pub proof fn lemma_load_remembers(
    cache: TextureCache,
    path: Seq<char>,
    size: Option<(u32, u32)>,
    other: Seq<char>,
)
    requires
        cache.wf(),
        cache.issued.len() < usize::MAX,
    ensures
        cache.load(path, size).1 matches Ok(handle) ==> cache.load(path, size).0.lookup(path)
            == Some(handle),
        cache.lookup(other) is Some ==> cache.load(path, size).0.lookup(other) == cache.lookup(
            other,
        ),
{
    let after = cache.load(path, size).0;
    lemma_load_keeps_wf(cache, path, size);
    if cache.lookup(path) is None && size is Some {
        let last = cache.paths.len() as int;
        assert(after.paths[last] == path);
        assert(after.paths.contains(path));
        if cache.lookup(other) is Some {
            let i = cache.paths.index_of(other);
            assert(after.paths[i] == other);
            assert(after.paths.contains(other));
        }
    }
}

/// Cache identity, first half: loading a path twice returns the same handle
/// both times, whatever the second decode yields.
pub proof fn lemma_same_path_same_texture(
    cache: TextureCache,
    path: Seq<char>,
    first: Option<(u32, u32)>,
    second: Option<(u32, u32)>,
)
    requires
        cache.wf(),
        cache.issued.len() < usize::MAX,
        cache.load(path, first).1 is Ok,
    ensures
        cache.load(path, first).0.load(path, second).1 == cache.load(path, first).1,
{
    lemma_load_remembers(cache, path, first, path);
}

/// Cache identity, second half: two different paths that are cached have
/// handles with different identifiers.
pub proof fn lemma_different_paths_different_textures(
    cache: TextureCache,
    p: Seq<char>,
    q: Seq<char>,
)
    requires
        cache.wf(),
        p != q,
        cache.lookup(p) is Some,
        cache.lookup(q) is Some,
    ensures
        cache.lookup(p)->Some_0.id != cache.lookup(q)->Some_0.id,
{
    let i = cache.paths.index_of(p);
    let j = cache.paths.index_of(q);
    if i < j {
        assert(cache.handles[i].id < cache.handles[j].id);
    } else {
        assert(cache.handles[j].id < cache.handles[i].id);
    }
}

/// Cache identity for two loads in a row: if both succeed, the handles have
/// the same identifier exactly when the paths are equal.
pub proof fn lemma_loads_agree_on_identity(
    cache: TextureCache,
    p: Seq<char>,
    first: Option<(u32, u32)>,
    q: Seq<char>,
    second: Option<(u32, u32)>,
)
    requires
        cache.wf(),
        cache.issued.len() + 1 < usize::MAX,
        cache.load(p, first).1 is Ok,
        cache.load(p, first).0.load(q, second).1 is Ok,
    ensures
        (cache.load(p, first).1->Ok_0.id == cache.load(p, first).0.load(q, second).1->Ok_0.id)
            <==> p == q,
{
    let mid = cache.load(p, first).0;
    lemma_load_keeps_wf(cache, p, first);
    lemma_load_remembers(cache, p, first, p);
    if p == q {
        lemma_same_path_same_texture(cache, p, first, second);
    } else {
        if mid.lookup(q) is Some {
            lemma_different_paths_different_textures(mid, p, q);
        } else {
            let i = mid.paths.index_of(p);
            assert(mid.handles[i].id < mid.issued.len());
        }
    }
}

/// The shaders that a cache holds: the paths they were loaded from, in the
/// order of loading. The shader of a path has the path's position as its
/// identifier.
pub struct ShaderCache {
    pub paths: Seq<Seq<char>>,
}

impl ShaderCache {
    /// No path occurs twice.
    pub open spec fn wf(self) -> bool {
        self.paths.no_duplicates()
    }

    /// The handle that is cached for `path`, if any.
    pub open spec fn lookup(self, path: Seq<char>) -> Option<ShaderHandle> {
        if self.paths.contains(path) {
            Some(ShaderHandle { id: self.paths.index_of(path) as usize })
        } else {
            None
        }
    }

    /// What loading `path` does to the cache and returns, where `readable`
    /// says whether the shader's source could be read.
    pub open spec fn load(self, path: Seq<char>, readable: bool) -> (
        ShaderCache,
        Result<ShaderHandle, AssetError>,
    ) {
        match self.lookup(path) {
            Some(handle) => (self, Ok(handle)),
            None => if readable {
                (
                    ShaderCache { paths: self.paths.push(path) },
                    Ok(ShaderHandle { id: self.paths.len() as usize }),
                )
            } else {
                (self, Err(AssetError::ShaderUnreadable))
            },
        }
    }
}

/// Position of `key` among `paths`, if it is there.
fn find_path(paths: &Vec<String>, key: &String) -> (found: Option<usize>)
    ensures
        match found {
            Some(i) => i < paths@.len() && paths@[i as int]@ == key@,
            None => forall|i: int| 0 <= i < paths@.len() ==> (#[trigger] paths@[i])@ != key@,
        },
{
    let mut i: usize = 0;
    while i < paths.len()
        invariant
            i <= paths.len(),
            forall|k: int| 0 <= k < i ==> (#[trigger] paths@[k])@ != key@,
        decreases paths.len() - i,
    {
        if paths[i] == *key {
            return Some(i);
        }
        i += 1;
    }
    None
}

/// The views of a list of paths.
pub open spec fn path_views(paths: Seq<String>) -> Seq<Seq<char>> {
    Seq::new(paths.len(), |i: int| paths[i]@)
}

/// What a successful load of a texture yields.
#[derive(Debug)]
pub struct TextureLoad {
    /// The texture of the path.
    pub handle: TextureHandle,
    /// The decoded image, if the texture is new and its pixels are still to
    /// be uploaded.
    pub image: Option<ImageData>,
}

/// The handle in the result of a load.
pub open spec fn handle_of(result: Result<TextureLoad, AssetError>) -> Result<
    TextureHandle,
    AssetError,
> {
    match result {
        Ok(loaded) => Ok(loaded.handle),
        Err(e) => Err(e),
    }
}

/// The asset cache. Loading a path a second time returns what the first
/// load returned. The key is the path as it is written: two spellings of one
/// file are two entries.
pub struct AssetManager {
    texture_paths: Vec<String>,
    texture_handles: Vec<TextureHandle>,
    issued: Vec<TextureHandle>,
    shader_paths: Vec<String>,
}

impl AssetManager {
    /// The textures in the cache.
    pub closed spec fn textures(&self) -> TextureCache {
        TextureCache {
            paths: path_views(self.texture_paths@),
            handles: self.texture_handles@,
            issued: self.issued@,
        }
    }

    /// The shaders in the cache.
    pub closed spec fn shaders(&self) -> ShaderCache {
        ShaderCache { paths: path_views(self.shader_paths@) }
    }

    /// Both caches are well formed.
    pub open spec fn wf(&self) -> bool {
        self.textures().wf() && self.shaders().wf()
    }

    /// An empty cache that has handed out no handle.
    pub fn new() -> (cache: AssetManager)
        ensures
            cache.wf(),
            cache.textures().paths.len() == 0,
            cache.textures().issued.len() == 0,
            cache.shaders().paths.len() == 0,
    {
        AssetManager {
            texture_paths: Vec::new(),
            texture_handles: Vec::new(),
            issued: Vec::new(),
            shader_paths: Vec::new(),
        }
    }

    /// Number of texture handles handed out so far.
    pub fn textures_issued(&self) -> (n: usize)
        ensures
            n == self.textures().issued.len(),
    {
        self.issued.len()
    }

    /// Hands out a handle for a texture of the size of `image` that is not
    /// to be cached. The handle is a new one, and what is cached stays as it
    /// is.
    pub fn allot_texture(&mut self, image: &ImageData) -> (handle: TextureHandle)
        requires
            old(self).wf(),
        ensures
            final(self).wf(),
            final(self).shaders() == old(self).shaders(),
            (final(self).textures(), handle) == old(self).textures().allot(
                image.width(),
                image.height(),
            ),
    {
        let ghost before = self.textures();
        let handle = TextureHandle {
            id: self.issued.len(),
            width: image.get_width(),
            height: image.get_height(),
        };
        self.issued.push(handle);
        proof {
            assert(before.issued.len() + 1 == self.issued.len() <= usize::MAX);
            lemma_allot_keeps_wf(before, image.width(), image.height());
            assert(self.textures().issued =~= before.issued.push(handle));
        }
        handle
    }

    /// The texture that is cached for `path`, if any.
    pub fn cached_texture(&self, path: &str) -> (found: Option<TextureHandle>)
        requires
            self.wf(),
        ensures
            found == self.textures().lookup(path@),
    {
        let key: String = path.to_owned();
        match find_path(&self.texture_paths, &key) {
            Some(i) => {
                proof {
                    let paths = self.textures().paths;
                    assert(paths[i as int] == path@);
                    assert(paths.contains(path@));
                }
                Some(self.texture_handles[i])
            },
            None => {
                proof {
                    let paths = self.textures().paths;
                    assert forall|i: int| 0 <= i < paths.len() implies paths[i] != path@ by {
                        assert(self.texture_paths@[i]@ != key@);
                    }
                }
                None
            },
        }
    }

    /// Returns the texture of `path`. A path that was loaded before is
    /// answered from the cache, without decoding. For any other path the
    /// contents `file` of the file are decoded; `file` is `None` if the file
    /// could not be read. A decoded image gets a new handle, which is
    /// remembered, and is handed back to be uploaded.
    pub fn load_texture(&mut self, path: &str, file: Option<&[u8]>) -> (result: Result<
        TextureLoad,
        AssetError,
    >)
        requires
            old(self).wf(),
        ensures
            final(self).wf(),
            final(self).shaders() == old(self).shaders(),
            exists|size: Option<(u32, u32)>|
                (final(self).textures(), handle_of(result)) == #[trigger] old(
                    self,
                ).textures().load(path@, size),
            old(self).textures().lookup(path@) is None && file is None ==> result == Err::<
                TextureLoad,
                AssetError,
            >(AssetError::DecodeFailure),
            result matches Ok(loaded) ==> {
                &&& loaded.image is Some <==> old(self).textures().lookup(path@) is None
                &&& loaded.image matches Some(i) ==> loaded.handle.width == i.width()
                    && loaded.handle.height == i.height()
            },
    {
        let ghost before = self.textures();
        match self.cached_texture(path) {
            Some(handle) => {
                assert(before.load(path@, None) == (before, Ok::<TextureHandle, AssetError>(handle)));
                Ok(TextureLoad { handle, image: None })
            },
            None => {
                let decoded: Option<ImageData> = decode_image(path, file);
                let ghost size: Option<(u32, u32)> = if decoded is Some {
                    Some((decoded->Some_0.width(), decoded->Some_0.height()))
                } else {
                    None
                };
                let installed = match &decoded {
                    Some(image) => self.install_texture(path, Some(image)),
                    None => self.install_texture(path, None),
                };
                assert((self.textures(), installed) == before.load(path@, size));
                match installed {
                    Ok(handle) => Ok(TextureLoad { handle, image: decoded }),
                    Err(e) => Err(e),
                }
            },
        }
    }

    /// Returns the texture of `path`, given the outcome of decoding its
    /// file. A path that was loaded before is answered from the cache,
    /// whatever `decoded` holds. For any other path `decoded` holds the
    /// decoded image, or nothing if the file could not be read or decoded.
    /// A decoded image gets a new handle, which is remembered.
    pub fn install_texture(&mut self, path: &str, decoded: Option<&ImageData>) -> (result: Result<
        TextureHandle,
        AssetError,
    >)
        requires
            old(self).wf(),
        ensures
            final(self).wf(),
            final(self).shaders() == old(self).shaders(),
            (final(self).textures(), result) == old(self).textures().load(
                path@,
                match decoded {
                    Some(image) => Some((image.width(), image.height())),
                    None => None,
                },
            ),
    {
        match self.cached_texture(path) {
            Some(handle) => Ok(handle),
            None => match decoded {
                None => Err(AssetError::DecodeFailure),
                Some(image) => {
                    let ghost before = self.textures();
                    let handle = TextureHandle {
                        id: self.issued.len(),
                        width: image.get_width(),
                        height: image.get_height(),
                    };
                    self.texture_paths.push(path.to_owned());
                    self.texture_handles.push(handle);
                    self.issued.push(handle);
                    proof {
                        let after = self.textures();
                        assert(after.paths =~= before.paths.push(path@));
                        assert(after.handles =~= before.handles.push(handle));
                        assert(after.issued =~= before.issued.push(handle));
                        assert(before.issued.len() + 1 == self.issued.len() <= usize::MAX);
                        lemma_load_keeps_wf(
                            before,
                            path@,
                            Some((image.width(), image.height())),
                        );
                    }
                    Ok(handle)
                },
            },
        }
    }

    /// The shader that is cached for `path`, if any.
    pub fn cached_shader(&self, path: &str) -> (found: Option<ShaderHandle>)
        requires
            self.wf(),
        ensures
            found == self.shaders().lookup(path@),
    {
        let key: String = path.to_owned();
        match find_path(&self.shader_paths, &key) {
            Some(i) => {
                proof {
                    let paths = self.shaders().paths;
                    assert(paths[i as int] == path@);
                    assert(paths.contains(path@));
                    let j = paths.index_of(path@);
                    assert(j == i);
                }
                Some(ShaderHandle { id: i })
            },
            None => {
                proof {
                    let paths = self.shaders().paths;
                    assert forall|i: int| 0 <= i < paths.len() implies paths[i] != path@ by {
                        assert(self.shader_paths@[i]@ != key@);
                    }
                }
                None
            },
        }
    }

    /// Returns the shader of `path`. A path that was loaded before is
    /// answered from the cache. For any other path `source` holds the text
    /// of the shader, or nothing if the file could not be read. A shader
    /// whose text was read gets a new handle, which is remembered; compiling
    /// the text is left to the caller.
    pub fn load_shader(&mut self, path: &str, source: Option<&str>) -> (result: Result<
        ShaderHandle,
        AssetError,
    >)
        requires
            old(self).wf(),
        ensures
            final(self).wf(),
            final(self).textures() == old(self).textures(),
            (final(self).shaders(), result) == old(self).shaders().load(path@, source is Some),
    {
        match self.cached_shader(path) {
            Some(handle) => Ok(handle),
            None => if source.is_some() {
                let ghost before = self.shaders();
                let handle = ShaderHandle { id: self.shader_paths.len() };
                self.shader_paths.push(path.to_owned());
                proof {
                    let after = self.shaders();
                    assert(after.paths =~= before.paths.push(path@));
                    assert forall|i: int, j: int|
                        0 <= i < after.paths.len() && 0 <= j < after.paths.len() && i
                            != j implies after.paths[i] != after.paths[j] by {
                        if i < before.paths.len() {
                            assert(before.paths.contains(before.paths[i]));
                        }
                        if j < before.paths.len() {
                            assert(before.paths.contains(before.paths[j]));
                        }
                    }
                }
                Ok(handle)
            } else {
                Err(AssetError::ShaderUnreadable)
            },
        }
    }
}

} // verus!
