//! Name-to-tool lookup over an insertion-ordered map.  The map itself
//! comes from the `indexmap` crate and is trusted through the contracts
//! below; everything built on it — duplicate rejection, lookup, listing —
//! is verified against them.

use vstd::prelude::*;
use vstd::string::StringExecFns;
use indexmap::IndexMap;
use crate::types::{McpError, ToolMapConfig, ToolRef};

verus! {

/// Declares `indexmap::IndexMap` so values of it can live in fields.
#[verifier::external_type_specification]
#[verifier::external_body]
#[verifier::reject_recursive_types(K)]
#[verifier::reject_recursive_types(V)]
#[verifier::reject_recursive_types(S)]
pub struct ExIndexMap<K, V, S>(IndexMap<K, V, S>);

/// What the name index holds: its entries in insertion order, each a key
/// with the position it carries.
pub uninterp spec fn spec_index_entries(m: IndexMap<String, usize>) -> Seq<(Seq<char>, int)>;

/// Relies on `IndexMap::new` (indexmap): the new map is empty.
#[verifier::external_body]
fn im_new() -> (m: IndexMap<String, usize>)
    ensures
        spec_index_entries(m) == Seq::<(Seq<char>, int)>::empty(),
{
    IndexMap::new()
}

/// Whether some entry holds the key.
pub open spec fn spec_index_has_key(entries: Seq<(Seq<char>, int)>, key: Seq<char>) -> bool {
    exists|i: int| 0 <= i < entries.len() && (#[trigger] entries[i]).0 == key
}

/// The value of the first entry holding the key.
pub open spec fn spec_index_find(entries: Seq<(Seq<char>, int)>, key: Seq<char>) -> Option<int>
    decreases entries.len(),
{
    if entries.len() == 0 {
        None
    } else if entries[0].0 == key {
        Some(entries[0].1)
    } else {
        spec_index_find(entries.drop_first(), key)
    }
}

proof fn lemma_index_find_some(entries: Seq<(Seq<char>, int)>, key: Seq<char>, v: int)
    requires
        spec_index_find(entries, key) == Some(v),
    ensures
        exists|i: int|
            0 <= i < entries.len() && (#[trigger] entries[i]).0 == key && entries[i].1 == v,
    decreases entries.len(),
{
    if entries.len() > 0 {
        if entries[0].0 == key {
        } else {
            lemma_index_find_some(entries.drop_first(), key, v);
            let j = choose|j: int|
                0 <= j < entries.drop_first().len() && (#[trigger] entries.drop_first()[j]).0
                    == key && entries.drop_first()[j].1 == v;
            assert(entries[j + 1] == entries.drop_first()[j]);
        }
    }
}

proof fn lemma_index_find_none(entries: Seq<(Seq<char>, int)>, key: Seq<char>)
    requires
        spec_index_find(entries, key) is None,
    ensures
        !spec_index_has_key(entries, key),
    decreases entries.len(),
{
    if entries.len() > 0 {
        lemma_index_find_none(entries.drop_first(), key);
        if spec_index_has_key(entries, key) {
            let i = choose|i: int|
                0 <= i < entries.len() && (#[trigger] entries[i]).0 == key;
            assert(i > 0);
            assert(entries.drop_first()[i - 1] == entries[i]);
        }
    }
}

/// Relies on `IndexMap::contains_key` (indexmap): a key is present exactly
/// when some entry holds it.
#[verifier::external_body]
fn im_contains_key(m: &IndexMap<String, usize>, key: &String) -> (r: bool)
    ensures
        r == spec_index_has_key(spec_index_entries(*m), key@),
{
    m.contains_key(key)
}

/// Relies on `IndexMap::insert` (indexmap): an absent key is appended
/// after the existing entries, which keep their places.
#[verifier::external_body]
fn im_insert(m: &mut IndexMap<String, usize>, key: String, value: usize)
    requires
        !spec_index_has_key(spec_index_entries(*old(m)), key@),
    ensures
        spec_index_entries(*final(m)) == spec_index_entries(*old(m)).push((key@, value as int)),
{
    m.insert(key, value);
}

/// Relies on `IndexMap::get` (indexmap): the value stored under the key,
/// when some entry holds it.
#[verifier::external_body]
fn im_get(m: &IndexMap<String, usize>, key: &String) -> (r: Option<usize>)
    ensures
        match r {
            Some(v) => spec_index_find(spec_index_entries(*m), key@) == Some(v as int),
            None => spec_index_find(spec_index_entries(*m), key@) is None,
        },
{
    m.get(key).copied()
}

/// First tool whose name matches, if any.
pub open spec fn spec_tool_lookup(tools: Seq<ToolRef>, name: Seq<char>) -> Option<ToolRef>
    decreases tools.len(),
{
    if tools.len() == 0 {
        None
    } else if tools[0].name@ == name {
        Some(tools[0])
    } else {
        spec_tool_lookup(tools.drop_first(), name)
    }
}

/// Name to [`ToolRef`] lookup, keeping the configuration's order.
pub struct ToolMap {
    index: IndexMap<String, usize>,
    tools: Vec<ToolRef>,
}

impl ToolMap {
    /// The tools, in the order the configuration declared them.
    pub closed spec fn spec_tools(&self) -> Seq<ToolRef> {
        self.tools@
    }

    /// The tool registered under a name.
    pub open spec fn spec_lookup(&self, name: Seq<char>) -> Option<ToolRef> {
        spec_tool_lookup(self.spec_tools(), name)
    }

    /// The index mirrors the tool list: entry `i` holds tool `i`'s name
    /// and position, and names are unique.
    pub closed spec fn wf(&self) -> bool {
        &&& spec_index_entries(self.index).len() == self.tools@.len()
        &&& forall|i: int|
            0 <= i < self.tools@.len() ==> #[trigger] spec_index_entries(self.index)[i] == (
                self.tools@[i].name@,
                i,
            )
        &&& forall|i: int, j: int|
            0 <= i < j < self.tools@.len() ==> #[trigger] self.tools@[i].name@
                != #[trigger] self.tools@[j].name@
    }

    /// Builds a [`ToolMap`] from a configuration.  Succeeds exactly when
    /// the tool names are pairwise distinct, keeping the tools in order;
    /// the first repeated name is rejected.
    pub fn from_config(config: &ToolMapConfig) -> (r: Result<ToolMap, McpError>)
        ensures
            (r is Ok) == (forall|i: int, j: int|
                0 <= i < j < config.tools@.len() ==> #[trigger] config.tools@[i].name@
                    != #[trigger] config.tools@[j].name@),
            r matches Ok(m) ==> m.wf() && m.spec_tools() == config.tools@,
            r matches Err(e) ==> ({
                &&& e matches McpError::InvalidInput(msg)
                &&& exists|j: int, i: int|
                    0 <= i < j < config.tools@.len() && #[trigger] config.tools@[i].name@
                        == #[trigger] config.tools@[j].name@ && msg@ == "duplicate tool name `"@
                        + config.tools@[j].name@ + "`"@
            }),
    {
        let n = config.tools.len();
        let mut index = im_new();
        let mut tools: Vec<ToolRef> = Vec::new();
        let mut k: usize = 0;
        while k < n
            invariant
                n == config.tools@.len(),
                k <= n,
                tools@.len() == k,
                forall|i: int| 0 <= i < k ==> #[trigger] tools@[i] == config.tools@[i],
                spec_index_entries(index).len() == k,
                forall|i: int|
                    0 <= i < k ==> #[trigger] spec_index_entries(index)[i] == (
                        config.tools@[i].name@,
                        i,
                    ),
                forall|i: int, j: int|
                    0 <= i < j < k ==> #[trigger] config.tools@[i].name@
                        != #[trigger] config.tools@[j].name@,
            decreases n - k,
        {
            let tool = &config.tools[k];
            if im_contains_key(&index, &tool.name) {
                let mut msg = String::from_str("duplicate tool name `");
                msg.append(tool.name.as_str());
                msg.append("`");
                return Err(McpError::InvalidInput(msg));
            }
            proof {
                assert forall|i: int|
                    0 <= i < k implies #[trigger] config.tools@[i].name@
                    != config.tools@[k as int].name@ by {
                    assert(spec_index_entries(index)[i] == (config.tools@[i].name@, i));
                }
            }
            im_insert(&mut index, tool.name.clone(), k);
            tools.push(tool.duplicate());
            k = k + 1;
        }
        let m = ToolMap { index, tools };
        proof {
            assert(m.spec_tools() =~= config.tools@);
        }
        Ok(m)
    }

    /// Retrieves a tool by name.
    pub fn get(&self, name: &str) -> (r: Result<&ToolRef, McpError>)
        requires
            self.wf(),
        ensures
            match r {
                Ok(t) => self.spec_lookup(name@) == Some(*t),
                Err(e) => ({
                    &&& self.spec_lookup(name@) is None
                    &&& e matches McpError::ToolNotFound(n)
                    &&& n@ == name@
                }),
            },
    {
        let owned: String = name.to_owned();
        match im_get(&self.index, &owned) {
            Some(i) => {
                proof {
                    let entries = spec_index_entries(self.index);
                    lemma_index_find_some(entries, owned@, i as int);
                    let w = choose|w: int|
                        0 <= w < entries.len() && (#[trigger] entries[w]).0 == owned@
                            && entries[w].1 == i as int;
                    assert(entries[w] == (self.tools@[w].name@, w));
                    lemma_tool_lookup_hit(self.tools@, name@, i as int);
                }
                Ok(&self.tools[i])
            },
            None => {
                proof {
                    let entries = spec_index_entries(self.index);
                    lemma_index_find_none(entries, owned@);
                    assert forall|w: int| 0 <= w < self.tools@.len() implies self.tools@[w].name@
                        != name@ by {
                        assert(entries[w] == (self.tools@[w].name@, w));
                    }
                    lemma_tool_lookup_miss(self.tools@, name@);
                }
                Err(McpError::tool_not_found(name))
            },
        }
    }

    /// The registered tools with their names, in insertion order.
    pub fn iter(&self) -> (r: Vec<(String, ToolRef)>)
        ensures
            r@.len() == self.spec_tools().len(),
            forall|i: int|
                0 <= i < r@.len() ==> #[trigger] r@[i].0@ == self.spec_tools()[i].name@ && r@[i].1
                    == self.spec_tools()[i],
    {
        let n = self.tools.len();
        let mut out: Vec<(String, ToolRef)> = Vec::new();
        let mut k: usize = 0;
        while k < n
            invariant
                n == self.tools@.len(),
                k <= n,
                out@.len() == k,
                forall|i: int|
                    0 <= i < k ==> #[trigger] out@[i].0@ == self.tools@[i].name@ && out@[i].1
                        == self.tools@[i],
            decreases n - k,
        {
            let tool = &self.tools[k];
            out.push((tool.name.clone(), tool.duplicate()));
            k = k + 1;
        }
        out
    }
}

proof fn lemma_tool_lookup_hit(tools: Seq<ToolRef>, name: Seq<char>, i: int)
    requires
        0 <= i < tools.len(),
        tools[i].name@ == name,
        forall|p: int, q: int|
            0 <= p < q < tools.len() ==> #[trigger] tools[p].name@ != #[trigger] tools[q].name@,
    ensures
        spec_tool_lookup(tools, name) == Some(tools[i]),
    decreases i,
{
    if i == 0 {
    } else {
        assert(tools[0].name@ != name);
        lemma_tool_lookup_hit(tools.drop_first(), name, i - 1);
        assert(tools.drop_first()[i - 1] == tools[i]);
    }
}

proof fn lemma_tool_lookup_miss(tools: Seq<ToolRef>, name: Seq<char>)
    requires
        forall|w: int| 0 <= w < tools.len() ==> (#[trigger] tools[w].name@) != name,
    ensures
        spec_tool_lookup(tools, name) is None,
    decreases tools.len(),
{
    if tools.len() > 0 {
        lemma_tool_lookup_miss(tools.drop_first(), name);
    }
}

} // verus!
