//! The application: the tool catalog and the start of a tool call by name,
//! over the ports that reach the workspace, the adapters and the caches.
use vstd::prelude::*;
use crate::catalog::{tool_catalog, tools, ToolSpec};
use crate::json::JsonMap;
use crate::pipeline::{initial_call, CallAction, CallActionV, ToolCall};
use crate::text::{owned, push_str, str_eq};

verus! {

/// The application over its ports.
pub struct UnicaApplication<P> {
    ports: P,
}

/// The first tool of `catalog` named `name`.
pub open spec fn first_tool(catalog: Seq<ToolSpec>, name: Seq<char>) -> Option<ToolSpec>
    decreases catalog.len(),
{
    if catalog.len() == 0 {
        None
    } else if catalog[0].name@ == name {
        Some(catalog[0])
    } else {
        first_tool(catalog.drop_first(), name)
    }
}

/// The public tool named `name`.
pub open spec fn find_tool(name: Seq<char>) -> Option<ToolSpec> {
    first_tool(tool_catalog(), name)
}

/// The error for a name that no tool has.
pub open spec fn unknown_tool_message(name: Seq<char>) -> Seq<char> {
    "unknown unica tool: "@ + name
}

proof fn lemma_first_tool_skip(catalog: Seq<ToolSpec>, name: Seq<char>, i: int)
    requires
        0 <= i <= catalog.len(),
        forall|j: int| 0 <= j < i ==> (#[trigger] catalog[j]).name@ != name,
    ensures
        first_tool(catalog, name) == first_tool(catalog.subrange(i, catalog.len() as int), name),
    decreases i,
{
    if i > 0 {
        assert(catalog.drop_first().subrange(i - 1, catalog.drop_first().len() as int)
            =~= catalog.subrange(i, catalog.len() as int));
        assert forall|j: int| 0 <= j < i - 1 implies (#[trigger] catalog.drop_first()[j]).name@
            != name by {
            assert(catalog.drop_first()[j] == catalog[j + 1]);
        }
        lemma_first_tool_skip(catalog.drop_first(), name, i - 1);
    } else {
        assert(catalog.subrange(0, catalog.len() as int) =~= catalog);
    }
}

/// Five characters that tell every tool name apart: its length, its seventh,
/// eighth and twelfth characters, and its third character from the end.
pub open spec fn tool_name_key(s: Seq<char>) -> (nat, char, char, char, char) {
    (s.len(), s[6], s[7], s[11], s[s.len() - 3])
}

/// No two public tools share a name.
pub proof fn law_tool_names_are_distinct()
    ensures
        forall|i: int, j: int|
            0 <= i < j < tool_catalog().len() ==> (#[trigger] tool_catalog()[i]).name@
                != (#[trigger] tool_catalog()[j]).name@,
{
    reveal_strlit("unica.db.list");
    reveal_strlit("unica.cf.edit");
    reveal_strlit("unica.cf.info");
    reveal_strlit("unica.cf.init");
    reveal_strlit("unica.cf.validate");
    reveal_strlit("unica.support.edit");
    reveal_strlit("unica.cfe.borrow");
    reveal_strlit("unica.cfe.diff");
    reveal_strlit("unica.cfe.init");
    reveal_strlit("unica.epf.init");
    reveal_strlit("unica.erf.init");
    reveal_strlit("unica.cfe.patch_method");
    reveal_strlit("unica.cfe.validate");
    reveal_strlit("unica.meta.compile");
    reveal_strlit("unica.meta.edit");
    reveal_strlit("unica.meta.info");
    reveal_strlit("unica.meta.profile");
    reveal_strlit("unica.meta.remove");
    reveal_strlit("unica.meta.validate");
    reveal_strlit("unica.help.add");
    reveal_strlit("unica.form.add");
    reveal_strlit("unica.form.compile");
    reveal_strlit("unica.form.edit");
    reveal_strlit("unica.form.info");
    reveal_strlit("unica.form.remove");
    reveal_strlit("unica.form.validate");
    reveal_strlit("unica.interface.edit");
    reveal_strlit("unica.interface.validate");
    reveal_strlit("unica.subsystem.compile");
    reveal_strlit("unica.subsystem.edit");
    reveal_strlit("unica.subsystem.info");
    reveal_strlit("unica.subsystem.validate");
    reveal_strlit("unica.template.add");
    reveal_strlit("unica.template.remove");
    reveal_strlit("unica.dcs.compile");
    reveal_strlit("unica.dcs.edit");
    reveal_strlit("unica.dcs.info");
    reveal_strlit("unica.dcs.validate");
    reveal_strlit("unica.mxl.compile");
    reveal_strlit("unica.mxl.decompile");
    reveal_strlit("unica.mxl.info");
    reveal_strlit("unica.mxl.validate");
    reveal_strlit("unica.role.compile");
    reveal_strlit("unica.role.info");
    reveal_strlit("unica.role.validate");
    reveal_strlit("unica.project.status");
    reveal_strlit("unica.project.map");
    reveal_strlit("unica.build.dump");
    reveal_strlit("unica.build.load");
    reveal_strlit("unica.build.update");
    reveal_strlit("unica.build.make");
    reveal_strlit("unica.build.run");
    reveal_strlit("unica.runtime.execute");
    reveal_strlit("unica.runtime.job.start");
    reveal_strlit("unica.runtime.job.status");
    reveal_strlit("unica.runtime.job.wait");
    reveal_strlit("unica.runtime.job.logs");
    reveal_strlit("unica.runtime.job.cancel");
    reveal_strlit("unica.runtime.job.list");
    reveal_strlit("unica.code.search");
    reveal_strlit("unica.code.definition");
    reveal_strlit("unica.code.outline");
    reveal_strlit("unica.code.grep");
    reveal_strlit("unica.code.patch");
    reveal_strlit("unica.code.graph");
    reveal_strlit("unica.code.diagnostics");
    reveal_strlit("unica.standards.search");
    reveal_strlit("unica.standards.explain");
    assert(tool_name_key("unica.db.list"@) == (13nat, 'd', 'b', 's', 'i'));
    assert(tool_name_key("unica.cf.edit"@) == (13nat, 'c', 'f', 'i', 'd'));
    assert(tool_name_key("unica.cf.info"@) == (13nat, 'c', 'f', 'f', 'n'));
    assert(tool_name_key("unica.cf.init"@) == (13nat, 'c', 'f', 'i', 'n'));
    assert(tool_name_key("unica.cf.validate"@) == (17nat, 'c', 'f', 'l', 'a'));
    assert(tool_name_key("unica.support.edit"@) == (18nat, 's', 'u', 'r', 'd'));
    assert(tool_name_key("unica.cfe.borrow"@) == (16nat, 'c', 'f', 'o', 'r'));
    assert(tool_name_key("unica.cfe.diff"@) == (14nat, 'c', 'f', 'i', 'i'));
    assert(tool_name_key("unica.cfe.init"@) == (14nat, 'c', 'f', 'n', 'n'));
    assert(tool_name_key("unica.epf.init"@) == (14nat, 'e', 'p', 'n', 'n'));
    assert(tool_name_key("unica.erf.init"@) == (14nat, 'e', 'r', 'n', 'n'));
    assert(tool_name_key("unica.cfe.patch_method"@) == (22nat, 'c', 'f', 'a', 'h'));
    assert(tool_name_key("unica.cfe.validate"@) == (18nat, 'c', 'f', 'a', 'a'));
    assert(tool_name_key("unica.meta.compile"@) == (18nat, 'm', 'e', 'c', 'i'));
    assert(tool_name_key("unica.meta.edit"@) == (15nat, 'm', 'e', 'e', 'd'));
    assert(tool_name_key("unica.meta.info"@) == (15nat, 'm', 'e', 'i', 'n'));
    assert(tool_name_key("unica.meta.profile"@) == (18nat, 'm', 'e', 'p', 'i'));
    assert(tool_name_key("unica.meta.remove"@) == (17nat, 'm', 'e', 'r', 'o'));
    assert(tool_name_key("unica.meta.validate"@) == (19nat, 'm', 'e', 'v', 'a'));
    assert(tool_name_key("unica.help.add"@) == (14nat, 'h', 'e', 'a', 'a'));
    assert(tool_name_key("unica.form.add"@) == (14nat, 'f', 'o', 'a', 'a'));
    assert(tool_name_key("unica.form.compile"@) == (18nat, 'f', 'o', 'c', 'i'));
    assert(tool_name_key("unica.form.edit"@) == (15nat, 'f', 'o', 'e', 'd'));
    assert(tool_name_key("unica.form.info"@) == (15nat, 'f', 'o', 'i', 'n'));
    assert(tool_name_key("unica.form.remove"@) == (17nat, 'f', 'o', 'r', 'o'));
    assert(tool_name_key("unica.form.validate"@) == (19nat, 'f', 'o', 'v', 'a'));
    assert(tool_name_key("unica.interface.edit"@) == (20nat, 'i', 'n', 'f', 'd'));
    assert(tool_name_key("unica.interface.validate"@) == (24nat, 'i', 'n', 'f', 'a'));
    assert(tool_name_key("unica.subsystem.compile"@) == (23nat, 's', 'u', 's', 'i'));
    assert(tool_name_key("unica.subsystem.edit"@) == (20nat, 's', 'u', 's', 'd'));
    assert(tool_name_key("unica.subsystem.info"@) == (20nat, 's', 'u', 's', 'n'));
    assert(tool_name_key("unica.subsystem.validate"@) == (24nat, 's', 'u', 's', 'a'));
    assert(tool_name_key("unica.template.add"@) == (18nat, 't', 'e', 'a', 'a'));
    assert(tool_name_key("unica.template.remove"@) == (21nat, 't', 'e', 'a', 'o'));
    assert(tool_name_key("unica.dcs.compile"@) == (17nat, 'd', 'c', 'o', 'i'));
    assert(tool_name_key("unica.dcs.edit"@) == (14nat, 'd', 'c', 'd', 'd'));
    assert(tool_name_key("unica.dcs.info"@) == (14nat, 'd', 'c', 'n', 'n'));
    assert(tool_name_key("unica.dcs.validate"@) == (18nat, 'd', 'c', 'a', 'a'));
    assert(tool_name_key("unica.mxl.compile"@) == (17nat, 'm', 'x', 'o', 'i'));
    assert(tool_name_key("unica.mxl.decompile"@) == (19nat, 'm', 'x', 'e', 'i'));
    assert(tool_name_key("unica.mxl.info"@) == (14nat, 'm', 'x', 'n', 'n'));
    assert(tool_name_key("unica.mxl.validate"@) == (18nat, 'm', 'x', 'a', 'a'));
    assert(tool_name_key("unica.role.compile"@) == (18nat, 'r', 'o', 'c', 'i'));
    assert(tool_name_key("unica.role.info"@) == (15nat, 'r', 'o', 'i', 'n'));
    assert(tool_name_key("unica.role.validate"@) == (19nat, 'r', 'o', 'v', 'a'));
    assert(tool_name_key("unica.project.status"@) == (20nat, 'p', 'r', 'c', 't'));
    assert(tool_name_key("unica.project.map"@) == (17nat, 'p', 'r', 'c', 'm'));
    assert(tool_name_key("unica.build.dump"@) == (16nat, 'b', 'u', '.', 'u'));
    assert(tool_name_key("unica.build.load"@) == (16nat, 'b', 'u', '.', 'o'));
    assert(tool_name_key("unica.build.update"@) == (18nat, 'b', 'u', '.', 'a'));
    assert(tool_name_key("unica.build.make"@) == (16nat, 'b', 'u', '.', 'a'));
    assert(tool_name_key("unica.build.run"@) == (15nat, 'b', 'u', '.', 'r'));
    assert(tool_name_key("unica.runtime.execute"@) == (21nat, 'r', 'u', 'm', 'u'));
    assert(tool_name_key("unica.runtime.job.start"@) == (23nat, 'r', 'u', 'm', 'a'));
    assert(tool_name_key("unica.runtime.job.status"@) == (24nat, 'r', 'u', 'm', 't'));
    assert(tool_name_key("unica.runtime.job.wait"@) == (22nat, 'r', 'u', 'm', 'a'));
    assert(tool_name_key("unica.runtime.job.logs"@) == (22nat, 'r', 'u', 'm', 'o'));
    assert(tool_name_key("unica.runtime.job.cancel"@) == (24nat, 'r', 'u', 'm', 'c'));
    assert(tool_name_key("unica.runtime.job.list"@) == (22nat, 'r', 'u', 'm', 'i'));
    assert(tool_name_key("unica.code.search"@) == (17nat, 'c', 'o', 's', 'r'));
    assert(tool_name_key("unica.code.definition"@) == (21nat, 'c', 'o', 'd', 'i'));
    assert(tool_name_key("unica.code.outline"@) == (18nat, 'c', 'o', 'o', 'i'));
    assert(tool_name_key("unica.code.grep"@) == (15nat, 'c', 'o', 'g', 'r'));
    assert(tool_name_key("unica.code.patch"@) == (16nat, 'c', 'o', 'p', 't'));
    assert(tool_name_key("unica.code.graph"@) == (16nat, 'c', 'o', 'g', 'a'));
    assert(tool_name_key("unica.code.diagnostics"@) == (22nat, 'c', 'o', 'd', 'i'));
    assert(tool_name_key("unica.standards.search"@) == (22nat, 's', 't', 'a', 'r'));
    assert(tool_name_key("unica.standards.explain"@) == (23nat, 's', 't', 'a', 'a'));
    let c = tool_catalog();
    assert forall|i: int, j: int|
        0 <= i < j < c.len() implies (#[trigger] c[i]).name@ != (#[trigger] c[j]).name@ by {
        assert(tool_name_key(c[i].name@) != tool_name_key(c[j].name@));
    }
}

/// Looking up the name of any public tool finds that very tool: a call by
/// name starts the tool that the catalog lists under it.
pub proof fn law_lookup_finds_each_tool(k: int)
    requires
        0 <= k < tool_catalog().len(),
    ensures
        find_tool(tool_catalog()[k].name@) == Some(tool_catalog()[k]),
{
    let c = tool_catalog();
    let name = c[k].name@;
    law_tool_names_are_distinct();
    assert forall|j: int| 0 <= j < k implies (#[trigger] c[j]).name@ != name by {
        assert(c[j].name@ != c[k].name@);
    }
    lemma_first_tool_skip(c, name, k);
    assert(c.subrange(k, c.len() as int)[0] == c[k]);
}

/// The public tool named `name`, if there is one.
pub fn find_tool_spec(name: &str) -> (r: Option<ToolSpec>)
    ensures
        r == find_tool(name@),
{
    let catalog = tools();
    let mut i: usize = 0;
    while i < catalog.len()
        invariant
            catalog@ == tool_catalog(),
            i <= catalog.len(),
            forall|j: int| 0 <= j < i ==> (#[trigger] catalog@[j]).name@ != name@,
        decreases catalog.len() - i,
    {
        if str_eq(catalog[i].name, name) {
            proof {
                lemma_first_tool_skip(catalog@, name@, i as int);
            }
            return Some(catalog[i]);
        }
        i = i + 1;
    }
    proof {
        lemma_first_tool_skip(catalog@, name@, catalog.len() as int);
    }
    None
}

impl<P> UnicaApplication<P> {
    /// The application over `ports`.
    pub fn with_ports(ports: P) -> (r: UnicaApplication<P>)
        ensures
            r.ports() == ports,
    {
        UnicaApplication { ports }
    }

    /// The ports of the application.
    pub closed spec fn ports(&self) -> P {
        self.ports
    }

    /// The ports of the application.
    pub fn ports_ref(&self) -> (r: &P)
        ensures
            *r == self.ports(),
    {
        &self.ports
    }

    /// Every public tool, in catalog order.
    pub fn tools(&self) -> (r: Vec<ToolSpec>)
        ensures
            r@ == tool_catalog(),
    {
        tools()
    }

    /// Starts a call of the tool named `name`: a call in its first state and
    /// its first action, or the error for an unknown name.
    pub fn start_call(&self, name: &str, args: JsonMap) -> (r: Result<(ToolCall, CallAction), String>)
        ensures
            match find_tool(name@) {
                Some(spec) => r matches Ok(c) && c.0@ == initial_call(spec, args@) && c.1@
                    == CallActionV::NormalizeArguments,
                None => r matches Err(m) && m@ == unknown_tool_message(name@),
            },
    {
        match find_tool_spec(name) {
            Some(spec) => Ok(ToolCall::start(spec, args)),
            None => {
                let mut m = owned("unknown unica tool: ");
                push_str(&mut m, name);
                Err(m)
            },
        }
    }
}

} // verus!
