//! The capability-discovery probe's decision logic.  The surrounding host
//! drives the probe actions through the pipeline; classifying their
//! outcomes and reading the capability list are decided here.

use vstd::prelude::*;
use crate::error::ExecError;
use crate::json::{json_model, Json, JsonModel};
use crate::text::str_eq_string;

verus! {

/// A probed datum: either the tool supplied it or the probe action is not
/// supported.
#[derive(Debug)]
pub enum Maybe<T> {
    Data(T),
    Unsupported,
}

/// What probing a tool yields.
#[derive(Debug)]
pub struct ToolDescribe {
    pub describe_v1: Option<Json>,
    pub capabilities: Maybe<Vec<String>>,
    pub secrets: Maybe<Json>,
    pub config_schema: Maybe<Json>,
}

/// Classifies a probe action's outcome: a missing component or a tool
/// answering `iface-error.not-found` means the action is unsupported;
/// every other error surfaces unchanged.
pub fn classify_probe(outcome: Result<Json, ExecError>) -> (r: Result<Maybe<Json>, ExecError>)
    ensures
        outcome matches Ok(v) ==> (r matches Ok(m) && m matches Maybe::Data(d) && d == v),
        outcome matches Err(e) ==> match e {
            ExecError::NotFound { .. } => r matches Ok(m) && m is Unsupported,
            ExecError::Tool { code, .. } => {
                if code@ == "iface-error.not-found"@ {
                    r matches Ok(m) && m is Unsupported
                } else {
                    r matches Err(e2) && e2 == e
                }
            },
            _ => r matches Err(e2) && e2 == e,
        },
{
    match outcome {
        Ok(v) => Ok(Maybe::Data(v)),
        Err(e) => match e {
            ExecError::NotFound { .. } => Ok(Maybe::Unsupported),
            ExecError::Tool { component, action, code, payload } => {
                if str_eq_string("iface-error.not-found", &code) {
                    Ok(Maybe::Unsupported)
                } else {
                    Err(ExecError::Tool { component, action, code, payload })
                }
            },
            other => Err(other),
        },
    }
}

/// The strings among a sequence of JSON values, in order.
pub open spec fn spec_str_items(items: Seq<JsonModel>) -> Seq<Seq<char>>
    decreases items.len(),
{
    if items.len() == 0 {
        Seq::empty()
    } else {
        let rest = spec_str_items(items.drop_first());
        match items[0] {
            JsonModel::Str(s) => seq![s] + rest,
            _ => rest,
        }
    }
}

proof fn lemma_str_items_step(items: Seq<JsonModel>, i: int)
    requires
        0 <= i < items.len(),
    ensures
        spec_str_items(items.skip(i)) == match items[i] {
            JsonModel::Str(s) => seq![s] + spec_str_items(items.skip(i + 1)),
            _ => spec_str_items(items.skip(i + 1)),
        },
{
    assert(items.skip(i)[0] == items[i]);
    assert(items.skip(i).drop_first() =~= items.skip(i + 1));
}

/// The capability list read from a probe reply: the string entries of a
/// JSON array, in order; any other value reads as no capabilities.
pub fn extract_capabilities(value: &Json) -> (r: Vec<String>)
    ensures
        value@ matches JsonModel::Arr(items) ==> ({
            let want = spec_str_items(items);
            &&& r@.len() == want.len()
            &&& forall|k: int| 0 <= k < r@.len() ==> #[trigger] r@[k]@ == want[k]
        }),
        !(value@ is Arr) ==> r@.len() == 0,
{
    match value {
        Json::Arr(items) => {
            let ghost m = value@->Arr_0;
            proof {
                assert(m.len() == items@.len());
                assert(forall|k: int| 0 <= k < items@.len() ==> m[k] == json_model(
                    #[trigger] items@[k],
                ));
                assert(m.skip(0) =~= m);
            }
            let n = items.len();
            let mut out: Vec<String> = Vec::new();
            let mut i: usize = 0;
            while i < n
                invariant
                    n == items@.len(),
                    i <= n,
                    m.len() == n,
                    forall|k: int| 0 <= k < n ==> m[k] == json_model(#[trigger] items@[k]),
                    spec_str_items(m).len() == out@.len() + spec_str_items(m.skip(i as int)).len(),
                    forall|k: int|
                        0 <= k < out@.len() ==> #[trigger] out@[k]@ == spec_str_items(m)[k],
                    spec_str_items(m) == out@.map_values(|s: String| s@) + spec_str_items(
                        m.skip(i as int),
                    ),
                decreases n - i,
            {
                proof {
                    lemma_str_items_step(m, i as int);
                }
                match &items[i] {
                    Json::Str(s) => {
                        out.push(s.clone());
                        proof {
                            assert(out@.map_values(|s2: String| s2@) =~= out@.drop_last().map_values(
                                |s2: String| s2@,
                            ).push(out@.last()@));
                            assert(spec_str_items(m) =~= out@.map_values(|s2: String| s2@)
                                + spec_str_items(m.skip(i as int + 1)));
                        }
                    },
                    _ => {},
                }
                i = i + 1;
            }
            proof {
                assert(spec_str_items(m.skip(n as int)).len() == 0);
                assert(spec_str_items(m) =~= out@.map_values(|s2: String| s2@));
                assert(forall|k: int|
                    0 <= k < out@.len() ==> #[trigger] out@[k]@ == out@.map_values(
                        |s2: String| s2@,
                    )[k]);
            }
            out
        },
        _ => Vec::new(),
    }
}

} // verus!
