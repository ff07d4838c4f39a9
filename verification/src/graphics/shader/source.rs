//! The shader sources that a program can be built from.

use crate::graphics::name_map::NameMap;
use crate::graphics::shader::error::{Fault, ShaderError};
use vstd::prelude::*;

verus! {

/// Shader sources, each under the path it is asked for by.
pub struct ShaderRegistry {
    files: NameMap<Vec<u8>>,
}

impl View for ShaderRegistry {
    type V = Map<Seq<char>, Seq<u8>>;

    closed spec fn view(&self) -> Map<Seq<char>, Seq<u8>> {
        self.files@.map_values(|source: Vec<u8>| source@)
    }
}

/// What a lookup in the registry yields.
pub open spec fn lookup(files: Map<Seq<char>, Seq<u8>>, path: Seq<char>) -> Result<
    Seq<u8>,
    Fault,
> {
    if files.contains_key(path) {
        Ok(files[path])
    } else {
        Err(Fault::AssetMissing { path })
    }
}

impl ShaderRegistry {
    pub closed spec fn wf(&self) -> bool {
        self.files.wf()
    }

    pub fn new() -> (registry: Self)
        ensures
            registry.wf(),
            registry@ == Map::<Seq<char>, Seq<u8>>::empty(),
    {
        let registry = ShaderRegistry { files: NameMap::new() };
        assert(registry@ =~= Map::<Seq<char>, Seq<u8>>::empty());
        registry
    }

    /// Puts `source` under `path`, in place of what was there.
    pub fn register(&mut self, path: &str, source: Vec<u8>)
        requires
            old(self).wf(),
        ensures
            final(self).wf(),
            final(self)@ == old(self)@.insert(path@, source@),
    {
        self.files.insert(path, source);
        assert(self@ =~= old(self)@.insert(path@, source@));
    }

    /// The source under `path`.
    pub fn get(&self, path: &str) -> (found: Result<&Vec<u8>, ShaderError>)
        requires
            self.wf(),
        ensures
            match found {
                Ok(source) => lookup(self@, path@) == Ok::<Seq<u8>, Fault>(source@),
                Err(error) => lookup(self@, path@) == Err::<Seq<u8>, Fault>(error@),
            },
    {
        match self.files.get(path) {
            Some(source) => Ok(source),
            None => Err(ShaderError::AssetMissing { path: path.to_owned() }),
        }
    }
}

} // verus!
