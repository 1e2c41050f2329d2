//! The address resolver: lexical classification of logical recipient
//! identifiers and resolution of local paths against a directory of named
//! components.
//!
//! A recipient is protocol-qualified (`protocol://chain/path`), a bare
//! same-chain path (it contains a separator), or a bare address. The resolver
//! performs no I/O: directory lookups take the directory as an explicit
//! parameter.

use vstd::prelude::*;

use crate::error::{ContractError, ContractErrorView};
use crate::strutil::{
    contains_char, find_char, find_sep, has_char, index_of_char, index_of_sep,
    lemma_find_char_props, lemma_find_sep_props, substring,
};
use crate::types::AndrAddr;

verus! {

/// The protocol a recipient is qualified with, if any: the characters before
/// the first `://`.
pub open spec fn protocol_of(s: Seq<char>) -> Option<Seq<char>> {
    match find_sep(s) {
        Some(i) => Some(s.take(i)),
        None => None,
    }
}

/// The chain segment of a protocol-qualified recipient: the characters
/// between `://` and the next `/`; `None` when unqualified or empty.
pub open spec fn chain_of(s: Seq<char>) -> Option<Seq<char>> {
    match find_sep(s) {
        None => None,
        Some(i) => {
            let rest = s.skip(i + 3);
            let c = match find_char(rest, '/') {
                Some(j) => rest.take(j),
                None => rest,
            };
            if c.len() == 0 {
                None
            } else {
                Some(c)
            }
        },
    }
}

/// The path of a recipient: the whole identifier when unqualified, otherwise
/// what follows the chain segment (including its leading `/`; empty when the
/// qualified form carries no path).
pub open spec fn raw_path_of(s: Seq<char>) -> Seq<char> {
    match find_sep(s) {
        None => s,
        Some(i) => {
            let rest = s.skip(i + 3);
            match find_char(rest, '/') {
                Some(j) => rest.skip(j),
                None => Seq::empty(),
            }
        },
    }
}

impl AndrAddr {
    /// The protocol this recipient is qualified with, if any.
    pub fn get_protocol(&self) -> (r: Option<String>)
        ensures
            match r {
                Some(p) => protocol_of(self@) == Some(p@),
                None => protocol_of(self@) is None,
            },
    {
        match index_of_sep(self.0.as_str()) {
            Some(i) => {
                proof {
                    lemma_find_sep_props(self@);
                    assert(self@.subrange(0, i as int) =~= self@.take(i as int));
                }
                Some(substring(self.0.as_str(), 0, i))
            },
            None => None,
        }
    }

    /// The chain segment of a protocol-qualified recipient, if any.
    pub fn get_chain(&self) -> (r: Option<String>)
        ensures
            match r {
                Some(c) => chain_of(self@) == Some(c@),
                None => chain_of(self@) is None,
            },
    {
        match index_of_sep(self.0.as_str()) {
            Some(i) => {
                proof {
                    lemma_find_sep_props(self@);
                }
                let n = self.0.as_str().unicode_len();
                let rest = substring(self.0.as_str(), i + 3, n);
                proof {
                    assert(rest@ =~= self@.skip(i + 3));
                }
                let chain = match index_of_char(rest.as_str(), '/') {
                    Some(j) => {
                        proof {
                            lemma_find_char_props(rest@, '/');
                            assert(rest@.subrange(0, j as int) =~= rest@.take(j as int));
                        }
                        substring(rest.as_str(), 0, j)
                    },
                    None => rest,
                };
                if chain.as_str().is_empty() {
                    None
                } else {
                    Some(chain)
                }
            },
            None => None,
        }
    }

    /// The path of this recipient (see [`raw_path_of`]).
    pub fn get_raw_path(&self) -> (r: String)
        ensures
            r@ == raw_path_of(self@),
    {
        match index_of_sep(self.0.as_str()) {
            Some(i) => {
                proof {
                    lemma_find_sep_props(self@);
                }
                let n = self.0.as_str().unicode_len();
                let rest = substring(self.0.as_str(), i + 3, n);
                proof {
                    assert(rest@ =~= self@.skip(i + 3));
                }
                let m = rest.as_str().unicode_len();
                match index_of_char(rest.as_str(), '/') {
                    Some(j) => {
                        proof {
                            lemma_find_char_props(rest@, '/');
                            assert(rest@.subrange(j as int, m as int) =~= rest@.skip(j as int));
                        }
                        substring(rest.as_str(), j, m)
                    },
                    None => {
                        proof {
                            reveal_strlit("");
                            assert(""@ =~= Seq::<char>::empty());
                        }
                        "".to_owned()
                    },
                }
            },
            None => self.0.clone(),
        }
    }
}

/// A named component of the directory and its concrete address.
#[derive(Debug, Clone, PartialEq, Eq)]
pub struct ComponentAddress {
    pub name: String,
    pub address: String,
}

/// The view of a [`ComponentAddress`].
#[verifier::ext_equal]
pub struct ComponentAddressView {
    pub name: Seq<char>,
    pub address: Seq<char>,
}

impl View for ComponentAddress {
    type V = ComponentAddressView;

    open spec fn view(&self) -> ComponentAddressView {
        ComponentAddressView { name: self.name@, address: self.address@ }
    }
}

impl DeepView for ComponentAddress {
    type V = ComponentAddressView;

    open spec fn deep_view(&self) -> ComponentAddressView {
        self.view()
    }
}

/// The address the directory gives a name: its first entry for that name.
pub open spec fn vfs_lookup(entries: Seq<ComponentAddressView>, name: Seq<char>) -> Option<
    Seq<char>,
>
    decreases entries.len(),
{
    if entries.len() == 0 {
        None
    } else if entries.first().name == name {
        Some(entries.first().address)
    } else {
        vfs_lookup(entries.drop_first(), name)
    }
}

proof fn lemma_vfs_lookup_some(entries: Seq<ComponentAddressView>, name: Seq<char>, i: int)
    requires
        0 <= i < entries.len(),
        entries[i].name == name,
        forall|j: int| 0 <= j < i ==> entries[j].name != name,
    ensures
        vfs_lookup(entries, name) == Some(entries[i].address),
    decreases entries.len(),
{
    if i > 0 {
        lemma_vfs_lookup_some(entries.drop_first(), name, i - 1);
    }
}

proof fn lemma_vfs_lookup_none(entries: Seq<ComponentAddressView>, name: Seq<char>)
    requires
        forall|j: int| 0 <= j < entries.len() ==> entries[j].name != name,
    ensures
        vfs_lookup(entries, name) is None,
    decreases entries.len(),
{
    if entries.len() > 0 {
        lemma_vfs_lookup_none(entries.drop_first(), name);
    }
}

/// What a local (unqualified) recipient resolves to: a path is looked up in
/// the directory and fails with an invalid address when absent; a non-empty
/// bare address is returned unchanged; an empty one is invalid.
pub open spec fn spec_resolve_local(
    vfs: Seq<ComponentAddressView>,
    recipient: Seq<char>,
) -> Result<Seq<char>, ContractErrorView> {
    if contains_char(recipient, '/') {
        match vfs_lookup(vfs, recipient) {
            Some(a) => Ok(a),
            None => Err(ContractErrorView::InvalidAddress),
        }
    } else if recipient.len() == 0 {
        Err(ContractErrorView::InvalidAddress)
    } else {
        Ok(recipient)
    }
}

/// Resolves a local recipient against the directory; see
/// [`spec_resolve_local`].
pub fn resolve_local(vfs: &Vec<ComponentAddress>, recipient: &str) -> (r: Result<
    String,
    ContractError,
>)
    ensures
        match r {
            Ok(a) => spec_resolve_local(vfs.deep_view(), recipient@) == Ok::<
                Seq<char>,
                ContractErrorView,
            >(a@),
            Err(e) => spec_resolve_local(vfs.deep_view(), recipient@) == Err::<
                Seq<char>,
                ContractErrorView,
            >(e@),
        },
{
    if has_char(recipient, '/') {
        let n = vfs.len();
        let mut i: usize = 0;
        while i < n
            invariant
                0 <= i <= n,
                n == vfs@.len(),
                contains_char(recipient@, '/'),
                forall|j: int| 0 <= j < i ==> vfs.deep_view()[j].name != recipient@,
            decreases n - i,
        {
            proof {
                assert(vfs.deep_view()[i as int] == vfs@[i as int].deep_view());
            }
            if crate::strutil::str_eq(vfs[i].name.as_str(), recipient) {
                proof {
                    lemma_vfs_lookup_some(vfs.deep_view(), recipient@, i as int);
                }
                return Ok(vfs[i].address.clone());
            }
            i = i + 1;
        }
        proof {
            lemma_vfs_lookup_none(vfs.deep_view(), recipient@);
        }
        Err(ContractError::InvalidAddress)
    } else if recipient.is_empty() {
        Err(ContractError::InvalidAddress)
    } else {
        Ok(recipient.to_owned())
    }
}

} // verus!
