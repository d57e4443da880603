//! Tool-map types: references to tools, the configuration file structure,
//! invocation payloads, the executor's error surface, and the format
//! sniffing used when a tool map is loaded from disk.

use vstd::prelude::*;
use vstd::string::{StrSliceExecFns, StringExecFns};
use crate::json::Json;
use crate::text::{
    char_is_whitespace, spec_is_whitespace, spec_split_once, spec_trim_start, str_eq_string,
};

verus! {

/// Reference to a tool stored in a [`ToolMapConfig`].
#[derive(Debug)]
pub struct ToolRef {
    pub name: String,
    pub component: String,
    pub entry: String,
    pub timeout_ms: Option<u64>,
    pub max_retries: Option<u32>,
    pub retry_backoff_ms: Option<u64>,
}

impl ToolRef {
    /// A copy equal to the original in every field.
    pub fn duplicate(&self) -> (t: ToolRef)
        ensures
            t == *self,
    {
        ToolRef {
            name: self.name.clone(),
            component: self.component.clone(),
            entry: self.entry.clone(),
            timeout_ms: self.timeout_ms,
            max_retries: self.max_retries,
            retry_backoff_ms: self.retry_backoff_ms,
        }
    }

    /// The component field read as a filesystem path.
    pub fn component_path(&self) -> (p: String)
        ensures
            p@ == self.component@,
    {
        self.component.clone()
    }

    /// Timeout requested for this tool, in milliseconds.
    pub fn timeout(&self) -> (t: Option<u64>)
        ensures
            t == self.timeout_ms,
    {
        self.timeout_ms
    }

    /// Maximum retry attempts for this tool; none requested means zero.
    pub fn max_retries(&self) -> (r: u32)
        ensures
            match self.max_retries {
                Some(n) => r == n,
                None => r == 0,
            },
    {
        match self.max_retries {
            Some(n) => n,
            None => 0,
        }
    }

    /// Base retry backoff in milliseconds; none requested means 200.
    pub fn retry_backoff(&self) -> (r: u64)
        ensures
            match self.retry_backoff_ms {
                Some(n) => r == n,
                None => r == 200,
            },
    {
        match self.retry_backoff_ms {
            Some(n) => n,
            None => 200,
        }
    }
}

/// Tool map configuration file structure.
#[derive(Debug)]
pub struct ToolMapConfig {
    pub tools: Vec<ToolRef>,
}

/// Input payload for a tool invocation.
#[derive(Debug)]
pub struct ToolInput {
    pub payload: Json,
}

/// Output payload for a tool invocation.
#[derive(Debug)]
pub struct ToolOutput {
    pub payload: Json,
}

/// Errors surfaced by the tool-map executor.  Causes arising outside the
/// library are carried as their messages.
#[derive(Debug)]
pub enum McpError {
    ToolNotFound(String),
    InvalidInput(String),
    ExecutionFailed(String),
    Timeout { name: String, timeout_ms: u64 },
    Transient(String, String),
    Internal(String),
    Io(String),
    Config(String),
    Json(String),
}

impl McpError {
    pub fn tool_not_found(name: &str) -> (e: Self)
        ensures
            e matches McpError::ToolNotFound(n) && n@ == name@,
    {
        McpError::ToolNotFound(name.to_owned())
    }

    pub fn timeout(name: &str, timeout_ms: u64) -> (e: Self)
        ensures
            e matches McpError::Timeout { name: n, timeout_ms: t } && n@ == name@ && t
                == timeout_ms,
    {
        McpError::Timeout { name: name.to_owned(), timeout_ms }
    }
}

/// How one sandbox invocation failed: guest traps are transient (the
/// sandbox can be retried afresh), everything else is fatal.
#[derive(Debug)]
pub enum InvocationFailure {
    Transient(String),
    Fatal(McpError),
}

/// Classifies a sandbox failure: a guest trap is transient and carries its
/// message; any other failure is fatal and names the tool.
pub fn classify_invocation(is_trap: bool, tool_name: &str, message: &str) -> (r: InvocationFailure)
    ensures
        is_trap ==> (r matches InvocationFailure::Transient(m) && m@ == message@),
        !is_trap ==> ({
            &&& r matches InvocationFailure::Fatal(e)
            &&& e matches McpError::ExecutionFailed(m)
            &&& m@ == "tool `"@ + tool_name@ + "` failed: "@ + message@
        }),
{
    if is_trap {
        InvocationFailure::Transient(message.to_owned())
    } else {
        let mut m = String::from_str("tool `");
        m.append(tool_name);
        m.append("` failed: ");
        m.append(message);
        InvocationFailure::Fatal(McpError::ExecutionFailed(m))
    }
}

/// The file name of a path: everything after its last `/`.
pub open spec fn spec_file_name(path: Seq<char>) -> Seq<char> {
    match spec_split_once(path.reverse(), '/') {
        Some(p) => p.0.reverse(),
        None => path,
    }
}

/// The extension of a path: what follows the last `.` of its file name,
/// provided that dot is not the name's first character.
pub open spec fn spec_extension(path: Seq<char>) -> Option<Seq<char>> {
    let name = spec_file_name(path);
    match spec_split_once(name.reverse(), '.') {
        Some(p) => {
            if p.1.len() == 0 {
                None
            } else {
                Some(p.0.reverse())
            }
        },
        None => None,
    }
}

/// The first character of the text that is not whitespace, if any.
pub open spec fn spec_first_non_ws(s: Seq<char>) -> Option<char> {
    if spec_trim_start(s).len() == 0 {
        None
    } else {
        Some(spec_trim_start(s)[0])
    }
}

/// Whether a configuration file holds JSON rather than YAML: decided by
/// the path's extension where it is telling, else by the first
/// non-whitespace character opening an object or array.
pub open spec fn spec_is_json(path: Seq<char>, content: Seq<char>) -> bool {
    match spec_extension(path) {
        Some(ext) => {
            if ext == "json"@ {
                true
            } else if ext == "yaml"@ || ext == "yml"@ {
                false
            } else {
                spec_first_non_ws(content) == Some('{') || spec_first_non_ws(content) == Some('[')
            }
        },
        None => spec_first_non_ws(content) == Some('{') || spec_first_non_ws(content) == Some('['),
    }
}

/// The extension of a path, as [`spec_extension`] defines it.
fn extension_of(path: &str) -> (r: Option<String>)
    ensures
        match r {
            Some(e) => spec_extension(path@) == Some(e@),
            None => spec_extension(path@) is None,
        },
{
    let n = path.unicode_len();
    // scan backwards for the last '/' and the last '.'
    let mut name_start: usize = 0;
    let mut j: usize = n;
    loop
        invariant
            n == path@.len(),
            j <= n,
            forall|k: int| j <= k < n ==> path@[k] != '/',
        ensures
            j <= n,
            forall|k: int| j <= k < n ==> path@[k] != '/',
            j > 0 ==> path@[j - 1] == '/',
            j == 0 || path@[j - 1] == '/',
        decreases j,
    {
        if j == 0 {
            break;
        }
        if path.get_char(j - 1) == '/' {
            break;
        }
        j = j - 1;
    }
    name_start = j;
    proof {
        lemma_file_name_at(path@, name_start as int);
    }
    let mut d: usize = n;
    loop
        invariant
            n == path@.len(),
            name_start <= d <= n,
            forall|k: int| d <= k < n ==> path@[k] != '.',
        ensures
            name_start <= d <= n,
            forall|k: int| d <= k < n ==> path@[k] != '.',
            d > name_start ==> path@[d - 1] == '.',
            d == name_start || path@[d - 1] == '.',
        decreases d,
    {
        if d == name_start {
            break;
        }
        if path.get_char(d - 1) == '.' {
            break;
        }
        d = d - 1;
    }
    let ghost name = spec_file_name(path@);
    proof {
        assert(name =~= path@.skip(name_start as int));
    }
    if d == name_start {
        // no dot in the file name
        proof {
            lemma_extension_none(path@, name_start as int);
        }
        return None;
    }
    if d == name_start + 1 {
        // the dot opens the file name: no extension
        proof {
            lemma_extension_leading_dot(path@, name_start as int);
        }
        return None;
    }
    let ext = path.substring_char(d, n).to_owned();
    proof {
        lemma_extension_at(path@, name_start as int, d as int);
        assert(ext@ =~= path@.subrange(d as int, n as int));
    }
    Some(ext)
}

proof fn lemma_rev_split_at(s: Seq<char>, c: char, j: int)
    requires
        0 <= j <= s.len(),
        forall|k: int| j <= k < s.len() ==> s[k] != c,
        j > 0 ==> s[j - 1] == c,
    ensures
        j == 0 ==> spec_split_once(s.reverse(), c) is None,
        j > 0 ==> (spec_split_once(s.reverse(), c) matches Some(p) && p.0 == s.skip(j).reverse()),
{
    let rev = s.reverse();
    if j == 0 {
        assert(forall|k: int| 0 <= k < rev.len() ==> rev[k] != c);
        lemma_split_once_none_local(rev, c);
    } else {
        let i = s.len() - j;
        assert(rev[i] == s[j - 1]);
        assert(forall|k: int| 0 <= k < i ==> rev[k] == s[s.len() - 1 - k] && rev[k] != c);
        lemma_split_once_at_local(rev, c, i);
        assert(rev.take(i) =~= s.skip(j).reverse());
    }
}

proof fn lemma_split_once_at_local(s: Seq<char>, c: char, i: int)
    requires
        0 <= i < s.len(),
        s[i] == c,
        forall|k: int| 0 <= k < i ==> s[k] != c,
    ensures
        spec_split_once(s, c) matches Some(p) && p.0 == s.take(i) && p.1 == s.skip(i + 1),
    decreases i,
{
    if i == 0 {
        assert(s.take(0) =~= Seq::<char>::empty());
        assert(s.skip(1) =~= s.drop_first());
    } else {
        lemma_split_once_at_local(s.drop_first(), c, i - 1);
        assert(seq![s[0]] + s.drop_first().take(i - 1) =~= s.take(i));
        assert(s.drop_first().skip(i) =~= s.skip(i + 1));
    }
}

proof fn lemma_split_once_none_local(s: Seq<char>, c: char)
    requires
        forall|k: int| 0 <= k < s.len() ==> s[k] != c,
    ensures
        spec_split_once(s, c) is None,
    decreases s.len(),
{
    if s.len() > 0 {
        lemma_split_once_none_local(s.drop_first(), c);
    }
}

proof fn lemma_file_name_at(path: Seq<char>, j: int)
    requires
        0 <= j <= path.len(),
        forall|k: int| j <= k < path.len() ==> path[k] != '/',
        j > 0 ==> path[j - 1] == '/',
    ensures
        spec_file_name(path) == path.skip(j),
{
    lemma_rev_split_at(path, '/', j);
    if j == 0 {
        assert(path.skip(0) =~= path);
    } else {
        assert(path.skip(j).reverse().reverse() =~= path.skip(j));
    }
}

proof fn lemma_extension_none(path: Seq<char>, j: int)
    requires
        0 <= j <= path.len(),
        spec_file_name(path) == path.skip(j),
        forall|k: int| j <= k < path.len() ==> path[k] != '.',
    ensures
        spec_extension(path) is None,
{
    let name = path.skip(j);
    assert(forall|k: int| 0 <= k < name.len() ==> name[k] == path[j + k] && name[k] != '.');
    lemma_split_once_none_local(name.reverse(), '.');
}

proof fn lemma_extension_leading_dot(path: Seq<char>, j: int)
    requires
        0 <= j < path.len(),
        spec_file_name(path) == path.skip(j),
        forall|k: int| j + 1 <= k < path.len() ==> path[k] != '.',
        path[j] == '.',
    ensures
        spec_extension(path) is None,
{
    let name = path.skip(j);
    let rev = name.reverse();
    let i = name.len() - 1;
    assert(rev[i] == name[0]);
    assert(name[0] == path[j]);
    assert(forall|k: int| 0 <= k < i ==> rev[k] == name[name.len() - 1 - k] && rev[k] != '.');
    lemma_split_once_at_local(rev, '.', i);
    assert(rev.skip(i + 1).len() == 0);
}

proof fn lemma_extension_at(path: Seq<char>, j: int, d: int)
    requires
        0 <= j <= path.len(),
        spec_file_name(path) == path.skip(j),
        j + 1 < d <= path.len(),
        path[d - 1] == '.',
        forall|k: int| d <= k < path.len() ==> path[k] != '.',
    ensures
        spec_extension(path) == Some(path.skip(d)),
{
    let name = path.skip(j);
    let rev = name.reverse();
    let i = path.len() - d;
    assert(rev[i] == name[name.len() - 1 - i]);
    assert(name[name.len() - 1 - i] == path[d - 1]);
    assert(forall|k: int| 0 <= k < i ==> rev[k] == name[name.len() - 1 - k] && rev[k] != '.');
    lemma_split_once_at_local(rev, '.', i);
    assert(rev.skip(i + 1).len() == path.len() - d + (d - 1 - j + 1) - (i + 1));
    assert(rev.skip(i + 1).len() > 0);
    assert(rev.take(i) =~= path.skip(d).reverse());
    assert(path.skip(d).reverse().reverse() =~= path.skip(d));
}

/// Whether a configuration file holds JSON rather than YAML, going by the
/// path's extension where it is telling, else by the first non-whitespace
/// character of the content.
pub fn is_json(path: &str, content: &str) -> (r: bool)
    ensures
        r == spec_is_json(path@, content@),
{
    match extension_of(path) {
        Some(ext) => {
            if str_eq_string("json", &ext) {
                return true;
            }
            if str_eq_string("yaml", &ext) || str_eq_string("yml", &ext) {
                return false;
            }
        },
        None => {},
    }
    first_non_ws_opens_json(content)
}

/// Whether the first non-whitespace character opens a JSON object or
/// array.
fn first_non_ws_opens_json(content: &str) -> (r: bool)
    ensures
        r == (spec_first_non_ws(content@) == Some('{') || spec_first_non_ws(content@) == Some(
            '[',
        )),
{
    let n = content.unicode_len();
    let mut i: usize = 0;
    loop
        invariant
            n == content@.len(),
            i <= n,
            forall|k: int| 0 <= k < i ==> spec_is_whitespace(content@[k]),
        ensures
            i <= n,
            forall|k: int| 0 <= k < i ==> spec_is_whitespace(content@[k]),
            i < n ==> !spec_is_whitespace(content@[i as int]),
        decreases n - i,
    {
        if i == n {
            break;
        }
        if !char_is_whitespace(content.get_char(i)) {
            break;
        }
        i = i + 1;
    }
    proof {
        lemma_trim_start_skip_local(content@, i as int);
    }
    if i == n {
        return false;
    }
    let c = content.get_char(i);
    c == '{' || c == '['
}

proof fn lemma_trim_start_skip_local(s: Seq<char>, lo: int)
    requires
        0 <= lo <= s.len(),
        forall|k: int| 0 <= k < lo ==> spec_is_whitespace(s[k]),
        lo < s.len() ==> !spec_is_whitespace(s[lo]),
    ensures
        spec_trim_start(s) == s.skip(lo),
    decreases lo,
{
    if lo == 0 {
        assert(s.skip(0) =~= s);
    } else {
        lemma_trim_start_skip_local(s.drop_first(), lo - 1);
        assert(s.drop_first().skip(lo - 1) =~= s.skip(lo));
    }
}

} // verus!
