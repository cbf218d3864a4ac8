//! The tool registry: commands by name, their execution and their JSON descriptions.
use crate::json::Json;
use crate::text::{owned, str_eq};
use vstd::prelude::*;

verus! {

/// The arguments of a tool call, by name.
pub struct Args {
    pub entries: Vec<(String, String)>,
}

/// The value of the first argument named `key` from index `i` on.
pub open spec fn arg_from(e: Seq<(String, String)>, key: Seq<char>, i: int) -> Option<Seq<char>>
    decreases e.len() - i,
{
    if i < 0 || i >= e.len() {
        None
    } else if e[i].0@ == key {
        Some(e[i].1@)
    } else {
        arg_from(e, key, i + 1)
    }
}

impl Args {
    /// The argument named `key`.
    pub open spec fn arg(&self, key: Seq<char>) -> Option<Seq<char>> {
        arg_from(self.entries@, key, 0)
    }

    /// No arguments.
    pub fn empty() -> (r: Args)
        ensures
            r.entries@.len() == 0,
            forall|k: Seq<char>| r.arg(k) is None,
    {
        Args { entries: Vec::new() }
    }

    /// `args.get(key)`.
    pub fn get(&self, key: &str) -> (r: Option<&String>)
        ensures
            match r {
                Some(s) => self.arg(key@) == Some(s@),
                None => self.arg(key@) is None,
            },
    {
        let mut i: usize = 0;
        while i < self.entries.len()
            invariant
                i <= self.entries@.len(),
                self.arg(key@) == arg_from(self.entries@, key@, i as int),
            decreases self.entries@.len() - i,
        {
            if str_eq(self.entries[i].0.as_str(), key) {
                return Some(&self.entries[i].1);
            }
            i = i + 1;
        }
        None
    }
}

/// A command that the assistant can run, with arguments of type `A`.
pub trait CommandHandler<A> {
    /// Runs the command with its arguments and gives the text handed back.
    fn execute(&self, args: &A) -> String;
}

/// A command that the model is told about.
pub trait ToolDescription {
    /// The JSON description of the command that the model is given.
    fn description(&self) -> Json;
}

/// The commands by name. Names are distinct.
pub struct CommandRegistry<H> {
    commands: Vec<(String, H)>,
}

/// The index of the command named `name`, from index `i` on.
pub open spec fn index_from<H>(c: Seq<(String, H)>, name: Seq<char>, i: int) -> Option<int>
    decreases c.len() - i,
{
    if i < 0 || i >= c.len() {
        None
    } else if c[i].0@ == name {
        Some(i)
    } else {
        index_from(c, name, i + 1)
    }
}

proof fn lemma_index_from<H>(c: Seq<(String, H)>, name: Seq<char>, i: int)
    requires
        0 <= i,
    ensures
        index_from(c, name, i) matches Some(j) ==> i <= j < c.len() && c[j].0@ == name,
        index_from(c, name, i) is None ==> forall|j: int| i <= j < c.len() ==> c[j].0@ != name,
    decreases c.len() - i,
{
    if i < c.len() {
        lemma_index_from(c, name, i + 1);
    }
}

impl<H> CommandRegistry<H> {
    /// The names of the registered commands, in registration order.
    pub closed spec fn names(&self) -> Seq<Seq<char>> {
        Seq::new(self.commands@.len(), |i: int| self.commands@[i].0@)
    }

    /// The registered commands, in registration order.
    pub closed spec fn handlers(&self) -> Seq<H> {
        Seq::new(self.commands@.len(), |i: int| self.commands@[i].1)
    }

    /// The command registered under `name`.
    pub closed spec fn handler(&self, name: Seq<char>) -> Option<H> {
        match index_from(self.commands@, name, 0) {
            Some(i) => Some(self.commands@[i].1),
            None => None,
        }
    }

    /// No name is registered twice.
    pub closed spec fn wf(&self) -> bool {
        forall|i: int, j: int|
            0 <= i < j < self.commands@.len() ==> self.commands@[i].0@ != self.commands@[j].0@
    }

    /// An empty registry.
    pub fn new() -> (r: Self)
        ensures
            r.wf(),
            r.names().len() == 0,
            forall|n: Seq<char>| r.handler(n) is None,
    {
        CommandRegistry { commands: Vec::new() }
    }

    /// The number of registered commands.
    pub fn len(&self) -> (r: usize)
        ensures
            r == self.names().len(),
    {
        self.commands.len()
    }

    /// Registers `command` under `name`, replacing a command of the same name.
    pub fn register(&mut self, name: String, command: H)
        requires
            old(self).wf(),
        ensures
            final(self).wf(),
            final(self).handler(name@) == Some(command),
            forall|n: Seq<char>| n != name@ ==> final(self).handler(n) == old(self).handler(n),
            old(self).handler(name@) is Some ==> final(self).names() == old(self).names(),
            old(self).handler(name@) is None ==> final(self).names() == old(self).names().push(name@),
    {
        let ghost before = self.commands@;
        assert(old(self).commands@ == before);
        let mut i: usize = 0;
        while i < self.commands.len()
            invariant
                self.commands@ == before,
                old(self).commands@ == before,
                self.wf(),
                i <= before.len(),
                index_from(before, name@, 0) == index_from(before, name@, i as int),
            decreases before.len() - i,
        {
            if str_eq(self.commands[i].0.as_str(), name.as_str()) {
                let ghost n = name@;
                assert(before[i as int].0@ == n);
                self.commands.set(i, (name, command));
                proof {
                    assert forall|j: int| 0 <= j < before.len() implies (#[trigger] self.commands@[j]).0@ == before[j].0@ by {
                        if j != i {
                            assert(self.commands@[j] == before[j]);
                        }
                    }
                    assert forall|m: Seq<char>| m != n implies self.handler(m) == old(self).handler(m) by {
                        lemma_same_index(before, self.commands@, m, 0);
                        lemma_index_from(before, m, 0);
                    }
                    lemma_same_index_at(before, self.commands@, n, 0, i as int);
                    assert(self.names() =~= old(self).names());
                }
                return;
            }
            i = i + 1;
        }
        proof {
            lemma_index_from(before, name@, 0);
        }
        let ghost n = name@;
        self.commands.push((name, command));
        proof {
            assert forall|m: Seq<char>| m != n implies self.handler(m) == old(self).handler(m) by {
                lemma_push_index(before, self.commands@, m, 0);
                lemma_index_from(before, m, 0);
            }
            lemma_push_index_new(before, self.commands@, n, 0);
            assert(self.names() =~= Seq::new(before.len(), |k: int| before[k].0@).push(n));
        }
    }

    /// The command registered under `name`.
    pub fn lookup(&self, name: &str) -> (r: Option<&H>)
        ensures
            match r {
                Some(h) => self.handler(name@) == Some(*h),
                None => self.handler(name@) is None,
            },
    {
        let mut i: usize = 0;
        while i < self.commands.len()
            invariant
                i <= self.commands@.len(),
                index_from(self.commands@, name@, 0) == index_from(self.commands@, name@, i as int),
            decreases self.commands@.len() - i,
        {
            if str_eq(self.commands[i].0.as_str(), name) {
                return Some(&self.commands[i].1);
            }
            i = i + 1;
        }
        None
    }
}

/// Whether a text is the answer for a command that is not registered.
pub open spec fn unknown_command_reply() -> Seq<char> {
    "Commande inconnue."@
}

impl<H> CommandRegistry<H> {
    /// Runs the command named `name` with `args`: its answer is what the registered command
    /// answers for them; a name that is not registered is answered `Commande inconnue.`.
    pub fn execute<A>(&self, name: &str, args: &A) -> (r: String)
        where
            H: CommandHandler<A>,
        ensures
            self.handler(name@) is None ==> r@ == unknown_command_reply(),
            self.handler(name@) matches Some(h) ==> call_ensures(H::execute, (&h, args), r),
    {
        match self.lookup(name) {
            Some(command) => command.execute(args),
            None => owned("Commande inconnue."),
        }
    }

    /// The descriptions of all registered commands, as a JSON array in registration order:
    /// item `i` is what the `i`-th command gives as its description.
    pub fn build_tools(&self) -> (r: Json)
        where
            H: ToolDescription,
        ensures
            self.handlers().len() == self.names().len(),
            r@ is Array,
            r@->Array_0.len() == self.handlers().len(),
            r matches Json::Array(items) && items@.len() == self.handlers().len()
                && forall|i: int| 0 <= i < items@.len()
                    ==> call_ensures(H::description, (&self.handlers()[i],), #[trigger] items@[i]),
    {
        let mut tools: Vec<Json> = Vec::new();
        let mut i: usize = 0;
        while i < self.commands.len()
            invariant
                i <= self.commands@.len(),
                tools@.len() == i,
                forall|j: int| 0 <= j < i ==> call_ensures(H::description, (&self.commands@[j].1,), #[trigger] tools@[j]),
            decreases self.commands@.len() - i,
        {
            tools.push(self.commands[i].1.description());
            i = i + 1;
        }
        proof {
            crate::json::lemma_array_view(tools);
        }
        let r = Json::Array(tools);
        assert forall|k: int| 0 <= k < tools@.len()
            implies call_ensures(H::description, (&self.handlers()[k],), #[trigger] tools@[k]) by {
            assert(self.handlers()[k] == self.commands@[k].1);
        }
        r
    }
}

proof fn lemma_same_index<H>(a: Seq<(String, H)>, b: Seq<(String, H)>, m: Seq<char>, k: int)
    requires
        a.len() == b.len(),
        0 <= k,
        forall|j: int| 0 <= j < a.len() ==> (a[j].0@ == m) == (b[j].0@ == m),
    ensures
        index_from(a, m, k) == index_from(b, m, k),
    decreases a.len() - k,
{
    if k < a.len() {
        lemma_same_index(a, b, m, k + 1);
    }
}

proof fn lemma_same_index_at<H>(a: Seq<(String, H)>, b: Seq<(String, H)>, m: Seq<char>, k: int, i: int)
    requires
        a.len() == b.len(),
        0 <= k <= i < a.len(),
        forall|j: int| 0 <= j < a.len() ==> (a[j].0@ == m) == (b[j].0@ == m),
        index_from(a, m, k) == Some(i),
    ensures
        index_from(b, m, k) == Some(i),
{
    lemma_same_index(a, b, m, k);
}

proof fn lemma_push_index<H>(a: Seq<(String, H)>, b: Seq<(String, H)>, m: Seq<char>, k: int)
    requires
        b.len() == a.len() + 1,
        0 <= k,
        forall|j: int| 0 <= j < a.len() ==> b[j] == a[j],
        b[a.len() as int].0@ != m,
    ensures
        index_from(a, m, k) == index_from(b, m, k),
    decreases b.len() - k,
{
    if k < b.len() {
        lemma_push_index(a, b, m, k + 1);
    }
}

proof fn lemma_push_index_new<H>(a: Seq<(String, H)>, b: Seq<(String, H)>, m: Seq<char>, k: int)
    requires
        b.len() == a.len() + 1,
        0 <= k <= a.len(),
        forall|j: int| 0 <= j < a.len() ==> b[j] == a[j],
        b[a.len() as int].0@ == m,
        forall|j: int| 0 <= j < a.len() ==> a[j].0@ != m,
    ensures
        index_from(b, m, k) == Some(a.len() as int),
    decreases b.len() - k,
{
    if k < a.len() {
        lemma_push_index_new(a, b, m, k + 1);
    }
}

} // verus!
