//! The effect registry: the catalogue of available effects and their
//! parameter declarations. The effect kernels themselves (blurs, keying,
//! tonal adjustments) are floating-point work in the host's raster
//! pipeline.

use vstd::prelude::*;
use crate::utils::str_eq;

verus! {

/// The declared type of one effect parameter.
#[derive(Debug, Clone)]
pub enum ParamType {
    Float,
    Int,
    Bool,
    Color,
    Choice(Vec<String>),
}

/// One declared effect parameter; numeric bounds in fixed-point units.
#[derive(Debug, Clone)]
pub struct Parameter {
    pub name: String,
    pub param_type: ParamType,
    pub default_value: i64,
    pub min_value: i64,
    pub max_value: i64,
}

/// One catalogued effect.
#[derive(Debug, Clone)]
pub struct EffectDefinition {
    pub id: String,
    pub name: String,
    pub category: String,
    pub parameters: Vec<Parameter>,
}

/// The first effect with the given id.
pub open spec fn spec_effect_lookup(es: Seq<EffectDefinition>, id: Seq<char>) -> Option<int>
    decreases es.len(),
{
    if es.len() == 0 {
        None
    } else if es[0].id@ == id {
        Some(0)
    } else {
        match spec_effect_lookup(es.drop_first(), id) {
            Some(i) => Some(i + 1),
            None => None,
        }
    }
}

/// The effect catalogue, seeded with the built-in effects.
pub struct EffectRegistry {
    effects: Vec<EffectDefinition>,
}

impl EffectRegistry {
    /// The catalogued effects, in order.
    pub closed spec fn spec_effects(&self) -> Seq<EffectDefinition> {
        self.effects@
    }

    /// Creates a registry holding the built-in effects: a blur and a
    /// keyer.
    pub fn new() -> (r: Self)
        ensures
            r.spec_effects().len() == 2,
            r.spec_effects()[0].id@ == "gaussian_blur"@,
            r.spec_effects()[0].parameters@.len() == 1,
            r.spec_effects()[1].id@ == "chroma_key"@,
            r.spec_effects()[1].parameters@.len() == 2,
    {
        let mut registry = EffectRegistry { effects: Vec::new() };
        registry.register_builtin_effects();
        registry
    }

    /// Seeds the built-in effects.
    fn register_builtin_effects(&mut self)
        requires
            old(self).spec_effects().len() == 0,
        ensures
            final(self).spec_effects().len() == 2,
            final(self).spec_effects()[0].id@ == "gaussian_blur"@,
            final(self).spec_effects()[0].parameters@.len() == 1,
            final(self).spec_effects()[1].id@ == "chroma_key"@,
            final(self).spec_effects()[1].parameters@.len() == 2,
    {
        let mut blur_params: Vec<Parameter> = Vec::new();
        blur_params.push(Parameter {
            name: "Radius".to_owned(),
            param_type: ParamType::Float,
            default_value: 5 * crate::fixed::SCALE,
            min_value: 0,
            max_value: 100 * crate::fixed::SCALE,
        });
        self.register_effect(EffectDefinition {
            id: "gaussian_blur".to_owned(),
            name: "Gaussian Blur".to_owned(),
            category: "Blur & Sharpen".to_owned(),
            parameters: blur_params,
        });

        let mut key_params: Vec<Parameter> = Vec::new();
        key_params.push(Parameter {
            name: "Hue".to_owned(),
            param_type: ParamType::Float,
            default_value: 120 * crate::fixed::SCALE,
            min_value: 0,
            max_value: 360 * crate::fixed::SCALE,
        });
        key_params.push(Parameter {
            name: "Tolerance".to_owned(),
            param_type: ParamType::Float,
            default_value: 10 * crate::fixed::SCALE,
            min_value: 0,
            max_value: 100 * crate::fixed::SCALE,
        });
        self.register_effect(EffectDefinition {
            id: "chroma_key".to_owned(),
            name: "Chroma Key".to_owned(),
            category: "Keying".to_owned(),
            parameters: key_params,
        });
    }

    /// Catalogues one more effect at the back.
    pub fn register_effect(&mut self, effect: EffectDefinition)
        ensures
            final(self).spec_effects() == old(self).spec_effects().push(effect),
    {
        self.effects.push(effect);
    }

    /// Gets an effect by id.
    pub fn get_effect(&self, id: &str) -> (r: Option<&EffectDefinition>)
        ensures
            match r {
                Some(e) => spec_effect_lookup(self.spec_effects(), id@) is Some
                    && *e == self.spec_effects()[spec_effect_lookup(self.spec_effects(), id@).unwrap()],
                None => spec_effect_lookup(self.spec_effects(), id@) is None,
            },
    {
        let n = self.effects.len();
        let mut i: usize = 0;
        proof {
            assert(self.effects@.skip(0) =~= self.effects@);
        }
        while i < n
            invariant
                n == self.effects@.len(),
                i <= n,
                spec_effect_lookup(self.effects@, id@) == match spec_effect_lookup(
                    self.effects@.skip(i as int), id@) {
                    Some(j) => Some(j + i),
                    None => None::<int>,
                },
            decreases n - i,
        {
            let ghost rest = self.effects@.skip(i as int);
            proof {
                assert(rest[0] == self.effects@[i as int]);
            }
            if str_eq(self.effects[i].id.as_str(), id) {
                return Some(&self.effects[i]);
            }
            i = i + 1;
            proof {
                assert(rest.drop_first() =~= self.effects@.skip(i as int));
            }
        }
        proof {
            assert(self.effects@.skip(n as int).len() == 0);
        }
        None
    }

    /// Lists every catalogued effect, in order.
    pub fn list_effects(&self) -> (r: &[EffectDefinition])
        ensures
            r@ == self.spec_effects(),
    {
        self.effects.as_slice()
    }
}

/// Video effect processing entry point; the kernels run in the host's
/// raster pipeline.
pub struct VideoEffectProcessor;

/// Transition processing entry point; the resampling runs in the host's
/// raster pipeline.
pub struct TransitionProcessor;

} // verus!
