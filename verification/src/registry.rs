//! The function registry: the names of user-defined scalar, aggregate and
//! window functions known to a deployment.  Decoding resolves a function
//! reference here first and only then asks the extension stack.

use vstd::prelude::*;

verus! {

broadcast use crate::views::lemma_deep_view_len, crate::views::lemma_deep_view_index, crate::views::lemma_bytes_deep_view;

/// A resolved scalar function reference.
#[derive(Debug, PartialEq)]
pub struct ScalarUdf {
    pub name: Vec<u8>,
}

/// A resolved aggregate function reference.
#[derive(Debug, PartialEq)]
pub struct AggregateUdf {
    pub name: Vec<u8>,
}

/// A resolved window function reference.
#[derive(Debug, PartialEq)]
pub struct WindowUdf {
    pub name: Vec<u8>,
}

/// The registered function names, one list per function family.
#[derive(Debug, PartialEq)]
pub struct FunctionRegistry {
    pub udfs: Vec<Vec<u8>>,
    pub udafs: Vec<Vec<u8>>,
    pub udwfs: Vec<Vec<u8>>,
}

/// The mathematical image of a [`FunctionRegistry`].
pub ghost struct RegistryV {
    pub udfs: Seq<Seq<u8>>,
    pub udafs: Seq<Seq<u8>>,
    pub udwfs: Seq<Seq<u8>>,
}

impl DeepView for FunctionRegistry {
    type V = RegistryV;

    open spec fn deep_view(&self) -> RegistryV {
        RegistryV {
            udfs: self.udfs.deep_view(),
            udafs: self.udafs.deep_view(),
            udwfs: self.udwfs.deep_view(),
        }
    }
}

/// `name` occurs in the list.
pub open spec fn reg_has(names: Seq<Seq<u8>>, name: Seq<u8>) -> bool {
    exists|k: int| 0 <= k < names.len() && names[k] == name
}

impl FunctionRegistry {
    /// A registry with no functions.
    pub fn new() -> (r: FunctionRegistry)
        ensures
            r.deep_view().udfs.len() == 0,
            r.deep_view().udafs.len() == 0,
            r.deep_view().udwfs.len() == 0,
    {
        FunctionRegistry { udfs: Vec::new(), udafs: Vec::new(), udwfs: Vec::new() }
    }

    /// Registers an aggregate function name.
    pub fn register_udaf(&mut self, name: Vec<u8>)
        ensures
            final(self).deep_view().udafs == old(self).deep_view().udafs.push(name@),
            final(self).deep_view().udfs == old(self).deep_view().udfs,
            final(self).deep_view().udwfs == old(self).deep_view().udwfs,
    {
        let ghost pre = self.udafs;
        let ghost nx = name;
        self.udafs.push(name);
        proof {
            crate::views::lemma_deep_view_push(self.udafs, pre, nx);
        }
    }

    /// Registers a window function name.
    pub fn register_udwf(&mut self, name: Vec<u8>)
        ensures
            final(self).deep_view().udwfs == old(self).deep_view().udwfs.push(name@),
            final(self).deep_view().udfs == old(self).deep_view().udfs,
            final(self).deep_view().udafs == old(self).deep_view().udafs,
    {
        let ghost pre = self.udwfs;
        let ghost nx = name;
        self.udwfs.push(name);
        proof {
            crate::views::lemma_deep_view_push(self.udwfs, pre, nx);
        }
    }

    /// Registers a scalar function name.
    pub fn register_udf(&mut self, name: Vec<u8>)
        ensures
            final(self).deep_view().udfs == old(self).deep_view().udfs.push(name@),
            final(self).deep_view().udafs == old(self).deep_view().udafs,
            final(self).deep_view().udwfs == old(self).deep_view().udwfs,
    {
        let ghost pre = self.udfs;
        let ghost nx = name;
        self.udfs.push(name);
        proof {
            crate::views::lemma_deep_view_push(self.udfs, pre, nx);
        }
    }
}

/// Whether `name` occurs in the list, by byte-wise comparison.
pub fn names_contain(names: &Vec<Vec<u8>>, name: &Vec<u8>) -> (r: bool)
    ensures
        r == reg_has(names.deep_view(), name@),
{
    let mut k: usize = 0;
    while k < names.len()
        invariant
            k <= names@.len(),
            forall|m: int| 0 <= m < k ==> #[trigger] names.deep_view()[m] != name@,
        decreases names@.len() - k,
    {
        if crate::schema::bytes_eq(&names[k], name) {
            proof {
                assert(names.deep_view()[k as int] == name@);
            }
            return true;
        }
        k = k + 1;
    }
    proof {
        assert(!reg_has(names.deep_view(), name@)) by {
            if reg_has(names.deep_view(), name@) {
                let w = choose|w: int|
                    0 <= w < names.deep_view().len() && names.deep_view()[w] == name@;
                assert(names.deep_view()[w] != name@);
            }
        }
    }
    false
}

} // verus!
