//! Shaders and linked programs, with a memoized uniform-location cache.
//!
//! Compilation and linking happen on the device; the caller performs them
//! and hands the resulting status and diagnostic text back. Construction
//! here decides what the outcome is and which handles must be released:
//! a failed compile or link yields the diagnostic text as the error and
//! exactly one delete command for the handle that was allocated for the
//! attempt, so a partial resource never leaks.

use vstd::prelude::*;

use crate::device::Command;
use crate::Bindable;

verus! {

/// A successfully compiled shader, exclusively owning its handle. No
/// partially compiled shader value exists: a failed compilation yields an
/// error, never a `Shader`.
#[derive(Debug)]
pub struct Shader {
    pub handle: u32,
}

impl Shader {
    /// Decide the outcome of a compilation attempt on `handle`, from the
    /// device's compile status and diagnostic text. On success the shader
    /// owns the handle and no command is owed; on failure the diagnostic
    /// text is the error and the handle is released exactly once.
    pub fn new(handle: u32, compiled: bool, info_log: String) -> (r: (
        Result<Shader, String>,
        Vec<Command>,
    ))
        ensures
            compiled ==> {
                &&& r.0 == Ok::<Shader, String>((Shader { handle }))
                &&& r.1@ == Seq::<Command>::empty()
            },
            !compiled ==> {
                &&& r.0 == Err::<Shader, String>(info_log)
                &&& r.1@ == seq![(Command::DeleteShader { handle })]
            },
    {
        if compiled {
            (Ok(Shader { handle }), Vec::new())
        } else {
            let mut cmds: Vec<Command> = Vec::new();
            cmds.push(Command::DeleteShader { handle });
            proof {
                assert(cmds@ =~= seq![(Command::DeleteShader { handle })]);
            }
            (Err(info_log), cmds)
        }
    }

    /// Give up ownership: the one command that releases this handle.
    pub fn release(self) -> (c: Command)
        ensures
            c == (Command::DeleteShader { handle: self.handle }),
    {
        Command::DeleteShader { handle: self.handle }
    }
}

/// The location a cache associates with a uniform name: the first entry
/// whose key is `name`, searched in insertion order.
pub open spec fn cache_lookup(entries: Seq<(Seq<char>, i32)>, name: Seq<char>) -> Option<i32>
    decreases entries.len(),
{
    if entries.len() == 0 {
        None
    } else if entries[0].0 == name {
        Some(entries[0].1)
    } else {
        cache_lookup(entries.drop_first(), name)
    }
}

/// A name resolved and cached once keeps its location: looking the name
/// up after it is inserted yields exactly the inserted location, so no
/// further device query is ever needed for that name.
pub proof fn lemma_lookup_after_insert(
    entries: Seq<(Seq<char>, i32)>,
    name: Seq<char>,
    location: i32,
)
    requires
        cache_lookup(entries, name) is None,
    ensures
        cache_lookup(entries.push((name, location)), name) == Some(location),
    decreases entries.len(),
{
    let pushed = entries.push((name, location));
    if entries.len() == 0 {
        assert(pushed[0] == (name, location));
    } else {
        assert(pushed[0] == entries[0]);
        assert(pushed.drop_first() =~= entries.drop_first().push((name, location)));
        lemma_lookup_after_insert(entries.drop_first(), name, location);
    }
}

/// Cache entries are never invalidated: inserting one name leaves every
/// other name's lookup unchanged.
pub proof fn lemma_insert_preserves_other_lookups(
    entries: Seq<(Seq<char>, i32)>,
    name: Seq<char>,
    location: i32,
    other: Seq<char>,
)
    requires
        other != name,
    ensures
        cache_lookup(entries.push((name, location)), other) == cache_lookup(entries, other),
    decreases entries.len(),
{
    let pushed = entries.push((name, location));
    if entries.len() == 0 {
        assert(pushed[0] == (name, location));
        assert(pushed.drop_first() =~= Seq::<(Seq<char>, i32)>::empty());
        assert(cache_lookup(pushed.drop_first(), other) == None::<i32>);
        assert(cache_lookup(entries, other) == None::<i32>);
    } else {
        assert(pushed[0] == entries[0]);
        assert(pushed.drop_first() =~= entries.drop_first().push((name, location)));
        lemma_insert_preserves_other_lookups(entries.drop_first(), name, location, other);
    }
}

/// A linked program, exclusively owning its handle and memoizing uniform
/// name-to-location lookups. It does not own the shaders attached to it:
/// attachment is transient, for linking only.
#[derive(Debug)]
pub struct Program {
    pub handle: u32,
    pub uniform_cache: Vec<(String, i32)>,
}

impl Program {
    /// The cache's entries as (name, location) pairs, in insertion order.
    pub open spec fn cache_entries(&self) -> Seq<(Seq<char>, i32)> {
        self.uniform_cache@.map_values(|e: (String, i32)| (e.0@, e.1))
    }

    /// Each name is cached at most once.
    pub open spec fn wf(&self) -> bool {
        forall|i: int, j: int|
            0 <= i < j < self.cache_entries().len() ==> (#[trigger] self.cache_entries()[i]).0 != (
            #[trigger] self.cache_entries()[j]).0
    }

    /// The commands that attach each given shader, in order, to program
    /// `handle` and then link it. Attaching does not pass ownership: the
    /// shaders still release their own handles.
    pub fn link_commands(handle: u32, shaders: &Vec<Shader>) -> (cmds: Vec<Command>)
        ensures
            cmds@.len() == shaders@.len() + 1,
            forall|i: int|
                #![trigger shaders@[i]]
                0 <= i < shaders@.len() ==> cmds@[i] == (Command::AttachShader {
                    program: handle,
                    shader: shaders@[i].handle,
                }),
            cmds@[shaders@.len() as int] == (Command::LinkProgram { handle }),
    {
        let mut cmds: Vec<Command> = Vec::new();
        let n: usize = shaders.len();
        let mut i: usize = 0;
        while i < n
            invariant
                n == shaders@.len(),
                i <= n,
                cmds@.len() == i,
                forall|j: int|
                    #![trigger shaders@[j]]
                    0 <= j < i ==> cmds@[j] == (Command::AttachShader {
                        program: handle,
                        shader: shaders@[j].handle,
                    }),
            decreases n - i,
        {
            cmds.push(Command::AttachShader { program: handle, shader: shaders[i].handle });
            i = i + 1;
        }
        cmds.push(Command::LinkProgram { handle });
        cmds
    }

    /// Decide the outcome of a link attempt on `handle`, from the
    /// device's link status and diagnostic text. On success the program
    /// owns the handle and starts with an empty uniform cache; on failure
    /// the diagnostic text is the error and the handle is released
    /// exactly once.
    pub fn new(handle: u32, linked: bool, info_log: String) -> (r: (
        Result<Program, String>,
        Vec<Command>,
    ))
        ensures
            linked ==> {
                &&& r.0 matches Ok(p) && p == (Program { handle, uniform_cache: p.uniform_cache })
                    && p.uniform_cache@ == Seq::<(String, i32)>::empty() && p.wf()
                &&& r.1@ == Seq::<Command>::empty()
            },
            !linked ==> {
                &&& r.0 == Err::<Program, String>(info_log)
                &&& r.1@ == seq![(Command::DeleteProgram { handle })]
            },
    {
        if linked {
            (Ok(Program { handle, uniform_cache: Vec::new() }), Vec::new())
        } else {
            let mut cmds: Vec<Command> = Vec::new();
            cmds.push(Command::DeleteProgram { handle });
            proof {
                assert(cmds@ =~= seq![(Command::DeleteProgram { handle })]);
            }
            (Err(info_log), cmds)
        }
    }

    /// The cached location for `name`, or `None` when `name` has never
    /// been resolved on this program. The result is a function of the
    /// cache alone: no device query is made, and the program is not
    /// changed, so two lookups of the same name return the identical
    /// value.
    pub fn get_uniform_location(&self, name: &str) -> (r: Option<i32>)
        ensures
            r == cache_lookup(self.cache_entries(), name@),
    {
        let key: String = name.to_owned();
        let n: usize = self.uniform_cache.len();
        let mut i: usize = 0;
        proof {
            assert(self.cache_entries().skip(0) =~= self.cache_entries());
        }
        while i < n
            invariant
                n == self.uniform_cache@.len(),
                i <= n,
                key@ == name@,
                cache_lookup(self.cache_entries().skip(i as int), name@) == cache_lookup(
                    self.cache_entries(),
                    name@,
                ),
            decreases n - i,
        {
            let ghost entries = self.cache_entries();
            let ghost rest = entries.skip(i as int);
            proof {
                assert(entries[i as int] == (self.uniform_cache@[i as int].0@,
                    self.uniform_cache@[i as int].1));
                assert(rest[0] == entries[i as int]);
            }
            if self.uniform_cache[i].0 == key {
                assert(rest[0].0 == name@);
                assert(cache_lookup(rest, name@) == Some(rest[0].1));
                return Some(self.uniform_cache[i].1);
            }
            proof {
                assert(rest.drop_first() =~= entries.skip(i + 1));
                assert(cache_lookup(rest, name@) == cache_lookup(rest.drop_first(), name@));
            }
            i = i + 1;
        }
        proof {
            assert(self.cache_entries().skip(n as int) =~= Seq::<(Seq<char>, i32)>::empty());
        }
        None
    }

    /// Record the location the device reported for `name`, after a lookup
    /// miss. The cache grows by exactly this one entry and existing
    /// entries are untouched: the cache grows monotonically and entries
    /// are never invalidated. Caching the device's answer even when it
    /// reports "not found" avoids re-querying a misspelled or
    /// optimized-out name on every call.
    pub fn cache_uniform_location(&mut self, name: &str, location: i32)
        requires
            old(self).wf(),
            cache_lookup(old(self).cache_entries(), name@) is None,
        ensures
            final(self).handle == old(self).handle,
            final(self).cache_entries() == old(self).cache_entries().push((name@, location)),
            final(self).wf(),
            cache_lookup(final(self).cache_entries(), name@) == Some(location),
    {
        proof {
            lemma_lookup_none_no_key(old(self).cache_entries(), name@);
        }
        let key: String = name.to_owned();
        self.uniform_cache.push((key, location));
        proof {
            assert(self.cache_entries() =~= old(self).cache_entries().push((name@, location)));
            lemma_lookup_after_insert(old(self).cache_entries(), name@, location);
            let entries = self.cache_entries();
            assert forall|i: int, j: int| 0 <= i < j < entries.len() implies (
            #[trigger] entries[i]).0 != (#[trigger] entries[j]).0 by {
                if j == entries.len() - 1 {
                    assert(entries[i].0 != name@);
                } else {
                    assert(entries[i] == old(self).cache_entries()[i]);
                    assert(entries[j] == old(self).cache_entries()[j]);
                }
            }
        }
    }

    /// Give up ownership: the one command that releases this handle.
    pub fn release(self) -> (c: Command)
        ensures
            c == (Command::DeleteProgram { handle: self.handle }),
    {
        Command::DeleteProgram { handle: self.handle }
    }
}

/// A lookup miss means no entry carries the name.
proof fn lemma_lookup_none_no_key(entries: Seq<(Seq<char>, i32)>, name: Seq<char>)
    requires
        cache_lookup(entries, name) is None,
    ensures
        forall|i: int| 0 <= i < entries.len() ==> (#[trigger] entries[i]).0 != name,
    decreases entries.len(),
{
    if entries.len() > 0 {
        lemma_lookup_none_no_key(entries.drop_first(), name);
        assert forall|i: int| 0 <= i < entries.len() implies (#[trigger] entries[i]).0 != name by {
            if i > 0 {
                assert(entries.drop_first()[i - 1] == entries[i]);
            }
        }
    }
}

impl Bindable for Program {
    open spec fn bind_command(&self) -> Command {
        Command::UseProgram { handle: self.handle }
    }

    /// Unbinding a program re-binds the null (zero) program, mirroring
    /// the other wrappers' unbind operations. This is a deliberate
    /// choice: the alternative, a no-op, would leave this program active.
    open spec fn unbind_command(&self) -> Command {
        Command::UseProgram { handle: 0 }
    }

    fn bind(&self) -> (c: Command) {
        Command::UseProgram { handle: self.handle }
    }

    fn unbind(&self) -> (c: Command) {
        Command::UseProgram { handle: 0 }
    }
}

} // verus!
