//! Materials: a shader reference plus named uniform properties and
//! texture bindings, stored as plain data. Binding them on the GPU
//! happens outside this library; the core only records what a draw
//! must bind.
//!
//! A set on a material whose shader is not (or no longer) in the vault
//! is silently dropped, mirroring the total, never-panicking policy of
//! the vault itself.

use vstd::prelude::*;
use crate::assoc::{assoc_find, lemma_assoc_absent, lemma_assoc_push, lemma_assoc_update};
use crate::asset::{Downcast, Shader};
use crate::context::GameContext;
use crate::matrix::Matrix3x3;
use crate::vault::{AssetId, Vault};

verus! {

/// One named texture binding: which texture unit to activate and the
/// vault handle of the texture to bind there.
#[derive(Clone, Copy, Debug, PartialEq, Eq, Structural)]
pub struct MaterialTexture {
    pub active_unit: u32,
    pub value: AssetId,
}

/// A shader reference with the named values a draw binds to it.
#[derive(Clone, Debug)]
pub struct Material {
    pub shader_id: AssetId,
    pub properties: Vec<(String, Matrix3x3)>,
    pub textures: Vec<(String, MaterialTexture)>,
}

impl Material {
    /// Whether this material's shader currently resolves in the vault.
    pub open spec fn shader_live(self, vault: Vault) -> bool {
        match vault.spec_asset(self.shader_id) {
            Some(a) => Shader::spec_downcast(a) is Some,
            None => false,
        }
    }

    pub fn new(shader_id: AssetId) -> (r: Material)
        ensures
            r.shader_id == shader_id,
            r.properties@.len() == 0,
            r.textures@.len() == 0,
    {
        Material { shader_id, properties: Vec::new(), textures: Vec::new() }
    }

    pub fn get_shader_id(&self) -> (r: AssetId)
        ensures
            r == self.shader_id,
    {
        self.shader_id
    }

    /// Record a named uniform value. If the shader is missing from the
    /// vault the call is a silent no-op; otherwise the binding for the
    /// name is created or overwritten and everything else is untouched.
    pub fn set_property(&mut self, ctx: &GameContext, name: &str, value: Matrix3x3)
        ensures
            final(self).shader_id == old(self).shader_id,
            final(self).textures@ == old(self).textures@,
            !old(self).shader_live(ctx.vault) ==> final(self).properties@ == old(self).properties@,
            old(self).shader_live(ctx.vault) ==> {
                &&& assoc_find(final(self).properties@, name@) == Some(value)
                &&& forall|n: Seq<char>|
                    n != name@ ==> assoc_find(final(self).properties@, n) == assoc_find(
                        old(self).properties@,
                        n,
                    )
            },
    {
        let shader_found: bool = match ctx.get_vault().get::<Shader>(self.shader_id) {
            Some(_) => true,
            None => false,
        };
        if !shader_found {
            return;
        }
        let key: String = name.to_owned();
        let ghost s = self.properties@;
        let mut i: usize = 0;
        while i < self.properties.len()
            invariant
                key@ == name@,
                self.properties@ == s,
                s == old(self).properties@,
                old(self).shader_live(ctx.vault),
                self.shader_id == old(self).shader_id,
                self.textures@ == old(self).textures@,
                i <= s.len(),
                forall|j: int| 0 <= j < i ==> (#[trigger] s[j]).0@ != key@,
            decreases s.len() - i,
        {
            if self.properties[i].0 == key {
                let slot = &mut self.properties[i];
                slot.1 = value;
                proof {
                    assert(self.properties@ == s.update(i as int, (s[i as int].0, value)));
                    lemma_assoc_update(s, i as int, (s[i as int].0, value), key@);
                }
                return;
            }
            i = i + 1;
        }
        proof {
            lemma_assoc_absent(s, key@);
        }
        self.properties.push((key, value));
        proof {
            lemma_assoc_push(s, (key, value), key@);
            assert forall|n: Seq<char>| n != name@ implies assoc_find(self.properties@, n)
                == assoc_find(s, n) by {
                lemma_assoc_push(s, (key, value), n);
            }
        }
    }

    /// Record a named texture binding. If the shader is missing the call
    /// is a silent no-op. A fresh binding takes the given texture unit; a
    /// rebinding replaces only the texture and keeps the unit it was
    /// first given.
    pub fn set_texture2d(&mut self, ctx: &GameContext, name: &str, texture_id: AssetId, active_unit: u32)
        ensures
            final(self).shader_id == old(self).shader_id,
            final(self).properties@ == old(self).properties@,
            !old(self).shader_live(ctx.vault) ==> final(self).textures@ == old(self).textures@,
            old(self).shader_live(ctx.vault) ==> {
                &&& match assoc_find(old(self).textures@, name@) {
                    Some(mt) => assoc_find(final(self).textures@, name@) == Some(
                        MaterialTexture { active_unit: mt.active_unit, value: texture_id },
                    ),
                    None => assoc_find(final(self).textures@, name@) == Some(
                        MaterialTexture { active_unit, value: texture_id },
                    ),
                }
                &&& forall|n: Seq<char>|
                    n != name@ ==> assoc_find(final(self).textures@, n) == assoc_find(
                        old(self).textures@,
                        n,
                    )
            },
    {
        let shader_found: bool = match ctx.get_vault().get::<Shader>(self.shader_id) {
            Some(_) => true,
            None => false,
        };
        if !shader_found {
            return;
        }
        let key: String = name.to_owned();
        let ghost s = self.textures@;
        let mut i: usize = 0;
        while i < self.textures.len()
            invariant
                key@ == name@,
                self.textures@ == s,
                s == old(self).textures@,
                old(self).shader_live(ctx.vault),
                self.shader_id == old(self).shader_id,
                self.properties@ == old(self).properties@,
                i <= s.len(),
                forall|j: int| 0 <= j < i ==> (#[trigger] s[j]).0@ != key@,
            decreases s.len() - i,
        {
            if self.textures[i].0 == key {
                let kept_unit: u32 = self.textures[i].1.active_unit;
                let slot = &mut self.textures[i];
                slot.1 = MaterialTexture { active_unit: kept_unit, value: texture_id };
                proof {
                    let p = (s[i as int].0, MaterialTexture { active_unit: kept_unit, value: texture_id });
                    assert(self.textures@ == s.update(i as int, p));
                    lemma_assoc_update(s, i as int, p, key@);
                    crate::assoc::lemma_assoc_present(s, key@, i as int);
                }
                return;
            }
            i = i + 1;
        }
        proof {
            lemma_assoc_absent(s, key@);
        }
        self.textures.push((key, MaterialTexture { active_unit, value: texture_id }));
        proof {
            lemma_assoc_push(s, (key, MaterialTexture { active_unit, value: texture_id }), key@);
            assert forall|n: Seq<char>| n != name@ implies assoc_find(self.textures@, n)
                == assoc_find(s, n) by {
                lemma_assoc_push(s, (key, MaterialTexture { active_unit, value: texture_id }), n);
            }
        }
    }
}

} // verus!
