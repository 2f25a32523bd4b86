//! Material parameter declarations on prepared assets and material instances
//! on renderers: the decoded tables and their checks.
use crate::error::{first_failure, lemma_first_failure_none, ProtocolError};
use crate::float_bits::{f64_within_f32, within_f32_f64};
use vstd::prelude::*;

verus! {

/// The wire `MaterialParameterDeclaration` table.
#[derive(Debug)]
pub struct MaterialParameterDeclarationTable {
    /// Parameter name.
    pub name: String,
    /// Whether the parameter-kind ordinal is one the schema names.
    pub kind_named: bool,
}

/// The wire `PreparedAsset` table, as far as the material rules read it.
#[derive(Debug)]
pub struct PreparedAssetTable {
    /// Whether the asset kind is `MaterialParameters`.
    pub declares_material_parameters: bool,
    /// Declared parameters (empty when absent).
    pub parameters: Vec<MaterialParameterDeclarationTable>,
}

/// The wire `MaterialParameter` table: a named value of up to four binary64
/// components, held as bit patterns.
#[derive(Debug)]
pub struct MaterialParameterTable {
    /// Parameter name.
    pub name: String,
    /// Whether the parameter-kind ordinal is one the schema names.
    pub kind_named: bool,
    /// The `x`, `y`, `z` and `w` components.
    pub components: [u64; 4],
}

/// The wire `MaterialInstance` table.
#[derive(Debug)]
pub struct MaterialInstanceTable {
    /// Renderer material slot.
    pub slot: u32,
    /// Material asset address.
    pub address: String,
    /// Parameter overrides.
    pub parameters: Vec<MaterialParameterTable>,
}

/// Declaration `i` is named, of a named kind, and named unlike every
/// declaration before it.
pub open spec fn declaration_valid(ps: Seq<MaterialParameterDeclarationTable>, i: int) -> bool {
    &&& ps[i].name@.len() > 0
    &&& ps[i].kind_named
    &&& forall|j: int| 0 <= j < i ==> ps[j].name@ != ps[i].name@
}

/// Why a prepared asset is refused, if it is.
pub open spec fn asset_failure(a: PreparedAssetTable) -> Option<Seq<char>> {
    if a.declares_material_parameters && exists|i: int|
        0 <= i < a.parameters@.len() && !declaration_valid(a.parameters@, i) {
        Some("invalid material parameter declaration"@)
    } else {
        None
    }
}

/// Checks a prepared asset: material-parameter assets declare nonempty,
/// distinct names of named kinds.
pub fn validate_asset(asset: &PreparedAssetTable) -> (r: Result<(), ProtocolError>)
    ensures
        match r {
            Ok(()) => asset_failure(*asset) is None,
            Err(e) => asset_failure(*asset) == Some(e@),
        },
{
    if !asset.declares_material_parameters {
        return Ok(());
    }
    let ghost ps = asset.parameters@;
    let mut i: usize = 0;
    while i < asset.parameters.len()
        invariant
            i <= ps.len(),
            ps == asset.parameters@,
            asset.declares_material_parameters,
            forall|k: int| 0 <= k < i ==> declaration_valid(ps, k),
        decreases ps.len() - i,
    {
        let p = &asset.parameters[i];
        if p.name.as_str().is_empty() || !p.kind_named {
            proof {
                assert(!declaration_valid(ps, i as int));
            }
            return Err(ProtocolError::new("invalid material parameter declaration"));
        }
        let mut j: usize = 0;
        while j < i
            invariant
                j <= i < ps.len(),
                ps == asset.parameters@,
                asset.declares_material_parameters,
                *p == ps[i as int],
                forall|k: int| 0 <= k < j ==> ps[k].name@ != ps[i as int].name@,
            decreases i - j,
        {
            if asset.parameters[j].name == p.name {
                proof {
                    assert(ps[j as int].name@ == ps[i as int].name@);
                    assert(!declaration_valid(ps, i as int));
                }
                return Err(ProtocolError::new("invalid material parameter declaration"));
            }
            j += 1;
        }
        i += 1;
    }
    proof {
        assert(forall|k: int| 0 <= k < ps.len() ==> declaration_valid(ps, k));
    }
    Ok(())
}

/// Every component is finite with magnitude at most `f32::MAX`.
pub open spec fn components_within_f32(c: [u64; 4]) -> bool {
    forall|k: int| 0 <= k < 4 ==> f64_within_f32(#[trigger] c@[k])
}

/// Why parameter `k` of one instance is refused, if it is.
pub open spec fn parameter_failure(ps: Seq<MaterialParameterTable>, k: int) -> Option<Seq<char>> {
    if ps[k].name@.len() == 0 || exists|j: int| 0 <= j < k && ps[j].name@ == ps[k].name@ {
        Some("invalid material parameter name"@)
    } else if !ps[k].kind_named || !components_within_f32(ps[k].components) {
        Some("invalid material parameter type or value"@)
    } else {
        None
    }
}

/// The parameter check at each index of `ps`.
pub open spec fn parameter_check(ps: Seq<MaterialParameterTable>) -> spec_fn(int) -> Option<
    Seq<char>,
> {
    |k: int| parameter_failure(ps, k)
}

/// Why instance `i` is refused, if it is.
pub open spec fn instance_failure(ms: Seq<MaterialInstanceTable>, i: int) -> Option<Seq<char>> {
    if ms[i].address@.len() == 0 || exists|j: int| 0 <= j < i && ms[j].slot == ms[i].slot {
        Some("invalid material instance slot or address"@)
    } else {
        first_failure(
            ms[i].parameters@.len() as int,
            parameter_check(ms[i].parameters@),
            0,
        )
    }
}

/// The instance check at each index of `ms`.
pub open spec fn instance_check(ms: Seq<MaterialInstanceTable>) -> spec_fn(int) -> Option<
    Seq<char>,
> {
    |i: int| instance_failure(ms, i)
}

/// Why a list of material instances is refused: the first failure in order.
pub open spec fn instances_failure(ms: Seq<MaterialInstanceTable>) -> Option<Seq<char>> {
    first_failure(ms.len() as int, instance_check(ms), 0)
}

/// Accepted material instances have addresses and pairwise distinct slots,
/// and the parameters of each have nonempty, pairwise distinct names, named
/// kinds, and components that fit in binary32.
pub proof fn lemma_accepted_instances(ms: Seq<MaterialInstanceTable>, i: int, j: int, k: int, m: int)
    requires
        instances_failure(ms) is None,
        0 <= j < i < ms.len(),
        0 <= m < k < ms[i].parameters@.len(),
    ensures
        ms[i].address@.len() > 0,
        ms[j].slot != ms[i].slot,
        ms[i].parameters@[k].name@.len() > 0,
        ms[i].parameters@[m].name@ != ms[i].parameters@[k].name@,
        ms[i].parameters@[k].kind_named,
        components_within_f32(ms[i].parameters@[k].components),
{
    lemma_first_failure_none(ms.len() as int, instance_check(ms), 0, i);
    assert(instance_check(ms)(i) is None);
    let ps = ms[i].parameters@;
    lemma_first_failure_none(ps.len() as int, parameter_check(ps), 0, k);
    assert(parameter_check(ps)(k) is None);
    if ms[j].slot == ms[i].slot {
        assert(exists|x: int| 0 <= x < i && ms[x].slot == ms[i].slot);
    }
    if ps[m].name@ == ps[k].name@ {
        assert(exists|x: int| 0 <= x < k && ps[x].name@ == ps[k].name@);
    }
}

fn components_fit(c: &[u64; 4]) -> (r: bool)
    ensures
        r == components_within_f32(*c),
{
    let mut k: usize = 0;
    while k < 4
        invariant
            k <= 4,
            c@.len() == 4,
            forall|j: int| 0 <= j < k ==> f64_within_f32(#[trigger] c@[j]),
        decreases 4 - k,
    {
        if !within_f32_f64(c[k]) {
            return false;
        }
        k += 1;
    }
    true
}

fn validate_parameters(ps: &Vec<MaterialParameterTable>) -> (r: Result<(), ProtocolError>)
    ensures
        match r {
            Ok(()) => first_failure(ps@.len() as int, parameter_check(ps@), 0) is None,
            Err(e) => first_failure(ps@.len() as int, parameter_check(ps@), 0) == Some(e@),
        },
{
    let ghost s = ps@;
    let ghost n = s.len() as int;
    let mut k: usize = 0;
    while k < ps.len()
        invariant
            k <= s.len(),
            s == ps@,
            n == s.len(),
            first_failure(n, parameter_check(s), 0) == first_failure(n, parameter_check(s), k as int),
        decreases s.len() - k,
    {
        let p = &ps[k];
        let mut duplicate = false;
        let mut j: usize = 0;
        while j < k
            invariant
                j <= k < s.len(),
                s == ps@,
                *p == s[k as int],
                duplicate == exists|m: int| 0 <= m < j && s[m].name@ == s[k as int].name@,
            decreases k - j,
        {
            if ps[j].name == p.name {
                duplicate = true;
            }
            j += 1;
        }
        if p.name.as_str().is_empty() || duplicate {
            proof {
                assert(parameter_check(s)(k as int) == Some("invalid material parameter name"@));
            }
            return Err(ProtocolError::new("invalid material parameter name"));
        }
        if !p.kind_named || !components_fit(&p.components) {
            proof {
                assert(parameter_check(s)(k as int) == Some(
                    "invalid material parameter type or value"@,
                ));
            }
            return Err(ProtocolError::new("invalid material parameter type or value"));
        }
        proof {
            assert(parameter_check(s)(k as int) is None);
        }
        k += 1;
    }
    Ok(())
}

/// Checks the material instances of one renderer: each has an address and a
/// slot unlike every instance before it, and parameters with distinct nonempty
/// names, named kinds, and components that fit in binary32.
pub fn validate_instances(values: &Vec<MaterialInstanceTable>) -> (r: Result<(), ProtocolError>)
    ensures
        match r {
            Ok(()) => instances_failure(values@) is None,
            Err(e) => instances_failure(values@) == Some(e@),
        },
{
    let ghost ms = values@;
    let ghost n = ms.len() as int;
    let mut i: usize = 0;
    while i < values.len()
        invariant
            i <= ms.len(),
            ms == values@,
            n == ms.len(),
            first_failure(n, instance_check(ms), 0) == first_failure(n, instance_check(ms), i as int),
        decreases ms.len() - i,
    {
        let m = &values[i];
        let mut duplicate = false;
        let mut j: usize = 0;
        while j < i
            invariant
                j <= i < ms.len(),
                ms == values@,
                *m == ms[i as int],
                duplicate == exists|k: int| 0 <= k < j && ms[k].slot == ms[i as int].slot,
            decreases i - j,
        {
            if values[j].slot == m.slot {
                duplicate = true;
            }
            j += 1;
        }
        if m.address.as_str().is_empty() || duplicate {
            proof {
                assert(instance_check(ms)(i as int) == Some(
                    "invalid material instance slot or address"@,
                ));
            }
            return Err(ProtocolError::new("invalid material instance slot or address"));
        }
        match validate_parameters(&m.parameters) {
            Err(e) => {
                proof {
                    assert(instance_check(ms)(i as int) == Some(e@));
                }
                return Err(e);
            },
            Ok(()) => {
                proof {
                    assert(instance_check(ms)(i as int) is None);
                }
            },
        }
        i += 1;
    }
    Ok(())
}

} // verus!
