//! Variables: the environment, and the record of which names each open
//! scope has added to it.
//!
//! The environment is what children inherit, and it doubles as the store of
//! the shell's variables. A scope opens with `mark` and closes with `drop`,
//! which takes out of the environment the names that `push` added since the
//! mark. `gpush` sets a variable without a record, so that it outlives the
//! scope.

use crate::dict::Dict;
use crate::text::{decimal, format_usize, join, joined, texts};
use vstd::prelude::*;
use vstd::string::StringExecFns;

verus! {

/// What the variables are, as mathematical values.
pub struct VarsView {
    /// The environment.
    pub env: Map<Seq<char>, Seq<char>>,
    /// The names added by `push` and not yet dropped, oldest first.
    pub keys: Seq<Seq<char>>,
    /// For each open scope, how many names were recorded when it opened.
    pub offsets: Seq<nat>,
}

impl VarsView {
    /// Whether the marks rise and none lies beyond the recorded names, and
    /// the recorded names are distinct and set in the environment.
    pub open spec fn wf(self) -> bool {
        &&& forall|i: int, j: int| 0 <= i <= j < self.offsets.len() ==> self.offsets[i]
            <= self.offsets[j]
        &&& forall|i: int| 0 <= i < self.offsets.len() ==> self.offsets[i] <= self.keys.len()
        &&& forall|i: int, j: int| 0 <= i < j < self.keys.len() ==> self.keys[i] != self.keys[j]
        &&& forall|i: int| 0 <= i < self.keys.len() ==> self.env.contains_key(self.keys[i])
    }

    /// How many scopes are open.
    pub open spec fn depth(self) -> nat {
        self.offsets.len()
    }

    /// After `push`: the variable is set, and its name recorded if the
    /// environment did not have it.
    pub open spec fn pushed(self, key: Seq<char>, value: Seq<char>) -> VarsView {
        VarsView {
            env: self.env.insert(key, value),
            keys: if self.env.contains_key(key) {
                self.keys
            } else {
                self.keys.push(key)
            },
            offsets: self.offsets,
        }
    }

    /// After `gpush`: the variable is set, and nothing is recorded.
    pub open spec fn gpushed(self, key: Seq<char>, value: Seq<char>) -> VarsView {
        VarsView { env: self.env.insert(key, value), ..self }
    }

    /// After `mark`: one more scope is open.
    pub open spec fn marked(self) -> VarsView {
        VarsView { offsets: self.offsets.push(self.keys.len()), ..self }
    }

    /// Where the innermost open scope began; 0 where none is open.
    pub open spec fn last_mark(self) -> nat {
        if self.offsets.len() > 0 {
            self.offsets.last()
        } else {
            0
        }
    }

    /// After `drop`: the innermost scope is closed, and the names recorded
    /// since it opened are gone from the record and from the environment.
    /// With no scope open, every recorded name goes.
    pub open spec fn dropped(self) -> VarsView {
        let from = self.last_mark() as int;
        VarsView {
            env: self.env.remove_keys(self.keys.skip(from).to_set()),
            keys: self.keys.take(from),
            offsets: if self.offsets.len() > 0 {
                self.offsets.drop_last()
            } else {
                self.offsets
            },
        }
    }

    /// After the first `n` arguments got their numbers: the argument `i`,
    /// counted from 1, is the variable named `i` in decimal.
    pub open spec fn numbered(self, args: Seq<Seq<char>>, n: nat) -> VarsView
        decreases n,
    {
        if n == 0 || n > args.len() {
            self
        } else {
            self.numbered(args, (n - 1) as nat).pushed(decimal(n), args[n - 1])
        }
    }

    /// After `set_args`: `#` is the number of arguments, `0` the name, `1`
    /// and so on the arguments, and `@` the arguments joined by blanks.
    pub open spec fn with_args(self, name: Seq<char>, args: Seq<Seq<char>>) -> VarsView {
        self.pushed("#"@, decimal(args.len())).pushed("0"@, name).numbered(args, args.len()).pushed(
            "@"@,
            joined(args, " "@),
        )
    }
}

/// The environment that a dictionary of strings stands for.
pub open spec fn env_of(m: Map<Seq<char>, String>) -> Map<Seq<char>, Seq<char>> {
    Map::new(|k: Seq<char>| m.contains_key(k), |k: Seq<char>| m[k]@)
}

/// The record of the names that open scopes have added.
#[derive(Debug)]
struct Record {
    keys: Vec<String>,
    offsets: Vec<usize>,
}

impl Record {
    spec fn keys_view(self) -> Seq<Seq<char>> {
        texts(self.keys@)
    }

    spec fn offsets_view(self) -> Seq<nat> {
        Seq::new(self.offsets@.len(), |i: int| self.offsets@[i] as nat)
    }

    spec fn wf(self) -> bool {
        &&& forall|i: int, j: int|
            0 <= i <= j < self.offsets@.len() ==> self.offsets@[i] <= self.offsets@[j]
        &&& forall|i: int| 0 <= i < self.offsets@.len() ==> self.offsets@[i] <= self.keys@.len()
    }

    fn empty() -> (r: Record)
        ensures
            r.keys@.len() == 0,
            r.offsets@.len() == 0,
            r.wf(),
    {
        Record { keys: Vec::new(), offsets: Vec::new() }
    }
}

/// The variables of the shell.
#[derive(Debug)]
pub struct Vars {
    env: Dict<String>,
    record: Record,
}

impl View for Vars {
    type V = VarsView;

    closed spec fn view(&self) -> VarsView {
        VarsView {
            env: env_of(self.env@),
            keys: self.record.keys_view(),
            offsets: self.record.offsets_view(),
        }
    }
}

/// The variables that an environment and a record stand for.
spec fn vars_of(env: Dict<String>, record: Record) -> VarsView {
    VarsView {
        env: env_of(env@),
        keys: record.keys_view(),
        offsets: record.offsets_view(),
    }
}

impl Vars {
    #[verifier::type_invariant]
    spec fn wf(self) -> bool {
        self.record.wf() && self@.wf()
    }

    /// No variable, no scope.
    pub fn new() -> (r: Vars)
        ensures
            r@.env == Map::<Seq<char>, Seq<char>>::empty(),
            r@.keys == Seq::<Seq<char>>::empty(),
            r@.offsets == Seq::<nat>::empty(),
    {
        let env: Dict<String> = Dict::new();
        let record = Record::empty();
        assert(record.keys_view() =~= Seq::<Seq<char>>::empty());
        assert(record.offsets_view() =~= Seq::<nat>::empty());
        let r = Vars { env, record };
        assert(r@.env =~= Map::<Seq<char>, Seq<char>>::empty());
        assert(r@.keys =~= Seq::<Seq<char>>::empty());
        assert(r@.offsets =~= Seq::<nat>::empty());
        r
    }

    /// How many scopes are open. The record of the scopes is well formed,
    /// whatever was done before.
    pub fn depth(&self) -> (r: usize)
        ensures
            r == self@.depth(),
            self@.wf(),
    {
        proof {
            use_type_invariant(self);
        }
        self.record.offsets.len()
    }

    /// The value of the variable `key`, if it is set.
    pub fn get(&self, key: &str) -> (r: Option<String>)
        ensures
            r matches Some(v) ==> self@.env.contains_key(key@) && v@ == self@.env[key@],
            r is None ==> !self@.env.contains_key(key@),
    {
        match self.env.get(key) {
            Some(v) => Some(v.clone()),
            None => None,
        }
    }

    /// How many variables the environment holds.
    pub closed spec fn env_count(&self) -> nat {
        self.env.count()
    }

    /// How many variables the environment holds.
    pub fn len(&self) -> (r: usize)
        ensures
            r == self.env_count(),
    {
        self.env.len()
    }

    /// The name of the variable number `i` of the environment.
    pub closed spec fn entry_name(&self, i: int) -> Seq<char> {
        self.env.name(i)
    }

    /// The variable number `i` of the environment, as name and value. No
    /// other number has the same name.
    pub fn entry(&self, i: usize) -> (r: (String, String))
        requires
            i < self.env_count(),
        ensures
            r.0@ == self.entry_name(i as int),
            self@.env.contains_key(r.0@),
            self@.env[r.0@] == r.1@,
            forall|j: int| 0 <= j < self.env_count() && j != i ==> self.entry_name(j) != r.0@,
    {
        let name = self.env.name_at(i).clone();
        let value = self.env.value_at(i).clone();
        (name, value)
    }

    /// Every variable of the environment has a number: going through the
    /// numbers below `env_count` reaches all of them.
    pub proof fn every_variable_has_a_number(&self, key: Seq<char>) -> (j: int)
        requires
            self@.env.contains_key(key),
        ensures
            0 <= j < self.env_count(),
            self.entry_name(j) == key,
    {
        self.env.listed(key)
    }

    /// Takes the variables apart, leaving none for the moment.
    fn take(&mut self) -> (r: (Dict<String>, Record))
        ensures
            r.0 == old(self).env,
            r.1 == old(self).record,
            vars_of(r.0, r.1) == old(self)@,
            old(self)@.wf(),
            r.1.wf(),
    {
        proof {
            use_type_invariant(&*self);
        }
        let mut whole = Vars::new();
        std::mem::swap(self, &mut whole);
        let Vars { env, record } = whole;
        (env, record)
    }

    /// Puts the variables together again.
    fn put(&mut self, env: Dict<String>, record: Record)
        requires
            record.wf(),
            vars_of(env, record).wf(),
        ensures
            final(self)@ == vars_of(env, record),
    {
        *self = Vars { env, record };
    }

    /// Sets the variable `key` for the innermost open scope: it is recorded
    /// for `drop`, unless the environment had it already.
    pub fn push(&mut self, key: &str, value: &str)
        ensures
            final(self)@ == old(self)@.pushed(key@, value@),
    {
        let ghost before = self@;
        let (mut env, mut record) = self.take();
        let exists = env.contains(key);
        env.insert(String::from_str(key), String::from_str(value));
        assert(env_of(env@) =~= before.env.insert(key@, value@));
        if !exists {
            record.keys.push(String::from_str(key));
            assert(record.keys_view() =~= before.keys.push(key@));
            assert(record.offsets_view() =~= before.offsets);
        }
        proof {
            lemma_vars(before);
            assert(vars_of(env, record) == before.pushed(key@, value@));
        }
        self.put(env, record);
    }

    /// Sets the variable `key` for good: no scope will take it away.
    pub fn gpush(&mut self, key: &str, value: &str)
        ensures
            final(self)@ == old(self)@.gpushed(key@, value@),
    {
        let ghost before = self@;
        let (mut env, record) = self.take();
        env.insert(String::from_str(key), String::from_str(value));
        proof {
            lemma_vars(before);
            assert(env_of(env@) =~= before.env.insert(key@, value@));
            assert(vars_of(env, record) == before.gpushed(key@, value@));
        }
        self.put(env, record);
    }

    /// Opens a scope.
    pub fn mark(&mut self)
        ensures
            final(self)@ == old(self)@.marked(),
    {
        let ghost before = self@;
        let (env, mut record) = self.take();
        let offset = record.keys.len();
        record.offsets.push(offset);
        proof {
            lemma_vars(before);
            assert(record.offsets_view() =~= before.offsets.push(before.keys.len()));
            assert(vars_of(env, record) == before.marked());
        }
        self.put(env, record);
    }

    /// Closes the innermost scope: the variables that `push` added since it
    /// opened leave the environment.
    pub fn drop(&mut self)
        ensures
            final(self)@ == old(self)@.dropped(),
    {
        let ghost before = self@;
        let (mut env, mut record) = self.take();
        let ghost r0 = record;
        let offset = match record.offsets.pop() {
            Some(o) => o,
            None => 0,
        };
        assert(offset == before.last_mark());
        assert(record.offsets_view() =~= before.dropped().offsets);
        proof {
            assert forall|i: int| 0 <= i < record.offsets@.len() implies record.offsets@[i]
                <= offset by {
                assert(r0.offsets@[i] <= r0.offsets@[r0.offsets@.len() - 1]);
            }
            assert(offset <= record.keys@.len()) by {
                if r0.offsets@.len() > 0 {
                    assert(r0.offsets@[r0.offsets@.len() - 1] <= r0.keys@.len());
                }
            }
        }
        assert(record.keys_view().take(record.keys@.len() as int) =~= record.keys_view());
        assert(before.keys.skip(before.keys.len() as int).to_set() =~= Set::<Seq<char>>::empty());
        assert(env_of(env@) =~= before.env.remove_keys(Set::<Seq<char>>::empty()));
        while record.keys.len() > offset
            invariant
                offset <= record.keys@.len() <= before.keys.len(),
                offset == before.last_mark(),
                record.offsets_view() == before.dropped().offsets,
                record.keys_view() == before.keys.take(record.keys@.len() as int),
                before.wf(),
                forall|i: int, j: int|
                    0 <= i <= j < record.offsets@.len() ==> record.offsets@[i]
                        <= record.offsets@[j],
                forall|i: int| 0 <= i < record.offsets@.len() ==> record.offsets@[i] <= offset,
                env_of(env@) == before.env.remove_keys(
                    before.keys.skip(record.keys@.len() as int).to_set(),
                ),
            decreases record.keys@.len(),
        {
            let ghost n = record.keys@.len();
            let ghost offs = record.offsets_view();
            let key = match record.keys.pop() {
                Some(k) => k,
                None => String::new(),
            };
            assert(key@ == before.keys.take(n as int)[n - 1]);
            assert(record.offsets_view() =~= offs);
            assert(record.keys_view() =~= before.keys.take(n - 1));
            let ghost e0 = env@;
            env.remove(key.as_str());
            proof {
                assert(env_of(env@) =~= env_of(e0).remove(key@));
                let s0 = before.keys.skip(n as int);
                let s1 = before.keys.skip(n - 1);
                let a = s0.to_set();
                let b = s1.to_set();
                assert forall|k: Seq<char>| b.contains(k) <==> (a.contains(k) || k == key@) by {
                    if b.contains(k) {
                        let i = choose|i: int| 0 <= i < s1.len() && #[trigger] s1[i] == k;
                        if i > 0 {
                            assert(s0[i - 1] == k);
                        }
                    }
                    if a.contains(k) {
                        let i = choose|i: int| 0 <= i < s0.len() && #[trigger] s0[i] == k;
                        assert(s1[i + 1] == k);
                    }
                    if k == key@ {
                        assert(s1[0] == k);
                    }
                }
                assert(env_of(e0).remove(key@) =~= before.env.remove_keys(b));
            }
        }
        assert(record.keys_view() =~= before.dropped().keys);
        proof {
            lemma_dropped(before);
            assert(vars_of(env, record) == before.dropped());
        }
        self.put(env, record);
    }

    /// Sets the variables that hold a call's arguments: `#`, `0`, `1` and so
    /// on, and `@`.
    pub fn set_args(&mut self, name: &str, args: &Vec<String>)
        ensures
            final(self)@ == old(self)@.with_args(name@, texts(args@)),
    {
        let ghost a = texts(args@);
        self.push("#", format_usize(args.len()).as_str());
        self.push("0", name);
        let ghost base = self@;
        let mut i: usize = 0;
        while i < args.len()
            invariant
                i <= args.len(),
                a == texts(args@),
                self@ == base.numbered(a, i as nat),
            decreases args.len() - i,
        {
            self.push(format_usize(i + 1).as_str(), args[i].as_str());
            i = i + 1;
        }
        self.push("@", join(args, " ").as_str());
    }
}

/// Closing a scope keeps the variables well formed: the names that stay on
/// record are distinct from those that go, so they stay set.
pub proof fn lemma_dropped(v: VarsView)
    requires
        v.wf(),
    ensures
        v.dropped().wf(),
        v.depth() > 0 ==> v.dropped().depth() == v.depth() - 1,
{
    let d = v.dropped();
    let from = v.last_mark() as int;
    if v.depth() > 0 {
        assert forall|i: int| 0 <= i < d.offsets.len() implies d.offsets[i] <= d.keys.len() by {
            assert(v.offsets[i] <= v.offsets[v.offsets.len() - 1]);
        }
    }
    let gone = v.keys.skip(from);
    assert forall|i: int| 0 <= i < d.keys.len() implies d.env.contains_key(d.keys[i]) by {
        assert(d.keys[i] == v.keys[i]);
        if gone.to_set().contains(v.keys[i]) {
            let j = choose|j: int| 0 <= j < gone.len() && #[trigger] gone[j] == v.keys[i];
            assert(v.keys[from + j] == v.keys[i]);
        }
    }
}

/// Opening a scope, closing one, and setting a variable keep the variables
/// well formed; the first two change the depth by one, the last not at all.
pub proof fn lemma_vars(v: VarsView)
    requires
        v.wf(),
    ensures
        v.marked().wf(),
        v.marked().depth() == v.depth() + 1,
        v.depth() > 0 ==> v.dropped().wf() && v.dropped().depth() == v.depth() - 1,
        forall|k: Seq<char>, x: Seq<char>| #[trigger]
            v.pushed(k, x).wf() && v.pushed(k, x).depth() == v.depth(),
        forall|k: Seq<char>, x: Seq<char>| #[trigger]
            v.gpushed(k, x).wf() && v.gpushed(k, x).depth() == v.depth(),
{
    lemma_dropped(v);
    assert forall|k: Seq<char>, x: Seq<char>| #[trigger]
        v.pushed(k, x).wf() && v.pushed(k, x).depth() == v.depth() by {
        let w = v.pushed(k, x);
        assert forall|i: int, j: int| 0 <= i < j < w.keys.len() implies w.keys[i]
            != w.keys[j] by {
            if j == v.keys.len() {
                assert(v.env.contains_key(v.keys[i]));
            }
        }
    }
}

/// Numbering the arguments of a call keeps the record of the scopes well
/// formed and the depth as it is.
pub proof fn lemma_numbered(v: VarsView, args: Seq<Seq<char>>, n: nat)
    requires
        v.wf(),
    ensures
        v.numbered(args, n).wf(),
        v.numbered(args, n).depth() == v.depth(),
    decreases n,
{
    if n == 0 || n > args.len() {
    } else {
        lemma_numbered(v, args, (n - 1) as nat);
        lemma_vars(v.numbered(args, (n - 1) as nat));
    }
}

/// Setting the variables of a call keeps the record of the scopes well
/// formed and the depth as it is.
pub proof fn lemma_with_args(v: VarsView, name: Seq<char>, args: Seq<Seq<char>>)
    requires
        v.wf(),
    ensures
        v.with_args(name, args).wf(),
        v.with_args(name, args).depth() == v.depth(),
{
    lemma_vars(v);
    let a = v.pushed("#"@, decimal(args.len()));
    lemma_vars(a);
    let b = a.pushed("0"@, name);
    lemma_numbered(b, args, args.len());
    lemma_vars(b.numbered(args, args.len()));
}

/// One thing done to the variables inside a scope.
pub enum Assign {
    /// `let`: sets a variable for the scope.
    Let(Seq<char>, Seq<char>),
    /// `export`: sets a variable for good.
    Export(Seq<char>, Seq<char>),
}

/// The variables after the assignments `ops`, done in order.
pub open spec fn assigned(v: VarsView, ops: Seq<Assign>) -> VarsView
    decreases ops.len(),
{
    if ops.len() == 0 {
        v
    } else {
        let before = assigned(v, ops.drop_last());
        match ops.last() {
            Assign::Let(k, x) => before.pushed(k, x),
            Assign::Export(k, x) => before.gpushed(k, x),
        }
    }
}

/// Whether some assignment of `ops` exports `key`.
pub open spec fn exported(ops: Seq<Assign>, key: Seq<char>) -> bool {
    exists|i: int| 0 <= i < ops.len() && ops[i] == Assign::Export(key, ops[i]->Export_1)
}

/// Whether, in `ops` done from `v` on, no name is exported after a `let`
/// of the same scope has brought it into the environment.
pub open spec fn exports_stay(v: VarsView, ops: Seq<Assign>) -> bool {
    forall|i: int|
        0 <= i < ops.len() ==> (#[trigger] ops[i] matches Assign::Export(k, _) ==> !assigned(
            v,
            ops.take(i),
        ).keys.skip(v.keys.len() as int).contains(k))
}

/// What holds of the name `k` where `w` is `v` after the assignments
/// `ops`: the environment has it if and only if `v` had it, or it was
/// exported, or it is on record since; and what is on record since is
/// neither of `v` nor exported.
spec fn grown_at(v: VarsView, w: VarsView, ops: Seq<Assign>, k: Seq<char>) -> bool {
    let n = v.keys.len() as int;
    &&& w.env.contains_key(k) <==> (v.env.contains_key(k) || exported(ops, k) || w.keys.skip(
        n,
    ).contains(k))
    &&& w.keys.skip(n).contains(k) ==> !v.env.contains_key(k) && !exported(ops, k)
}

/// Whether `w` is `v` after the assignments `ops`: the same scopes, the
/// record grown at its end, and every name as `grown_at` says.
spec fn grown(v: VarsView, w: VarsView, ops: Seq<Assign>) -> bool {
    let n = v.keys.len() as int;
    &&& w.offsets == v.offsets
    &&& w.keys.len() >= n
    &&& w.keys.take(n) == v.keys
    &&& forall|k: Seq<char>| #[trigger] grown_at(v, w, ops, k)
}

proof fn lemma_exported_step(ops: Seq<Assign>, k: Seq<char>)
    requires
        ops.len() > 0,
    ensures
        exported(ops, k) <==> (exported(ops.drop_last(), k) || (ops.last() matches Assign::Export(
            q,
            _,
        ) && q == k)),
{
    let rest = ops.drop_last();
    if exported(ops, k) {
        let i = choose|i: int| 0 <= i < ops.len() && ops[i] == Assign::Export(k, ops[i]->Export_1);
        if i < rest.len() {
            assert(rest[i] == ops[i]);
        }
    }
    if exported(rest, k) {
        let i = choose|i: int|
            0 <= i < rest.len() && rest[i] == Assign::Export(k, rest[i]->Export_1);
        assert(ops[i] == rest[i]);
    }
    if ops.last() matches Assign::Export(q, x) && q == k {
        assert(ops[ops.len() - 1] == Assign::Export(k, ops[ops.len() - 1]->Export_1));
    }
}

proof fn lemma_pushed_contains(s: Seq<Seq<char>>, k: Seq<char>, q: Seq<char>)
    ensures
        s.push(k).contains(q) <==> (s.contains(q) || q == k),
{
    let t = s.push(k);
    if t.contains(q) {
        let i = choose|i: int| 0 <= i < t.len() && t[i] == q;
        if i < s.len() {
            assert(s[i] == q);
        }
    }
    if s.contains(q) {
        let i = choose|i: int| 0 <= i < s.len() && s[i] == q;
        assert(t[i] == q);
    }
    if q == k {
        assert(t[s.len() as int] == q);
    }
}

proof fn lemma_assigned(v: VarsView, ops: Seq<Assign>)
    requires
        v.wf(),
        exports_stay(v, ops),
    ensures
        grown(v, assigned(v, ops), ops),
    decreases ops.len(),
{
    let n = v.keys.len() as int;
    if ops.len() == 0 {
        let w = assigned(v, ops);
        assert(w == v);
        assert(w.keys.take(n) =~= v.keys);
        assert(w.keys.skip(n) =~= Seq::<Seq<char>>::empty());
        assert forall|k: Seq<char>| #[trigger] grown_at(v, w, ops, k) by {}
    } else {
        let rest = ops.drop_last();
        assert forall|i: int| 0 <= i < rest.len() implies (#[trigger] rest[i] matches
            Assign::Export(k, _) ==> !assigned(v, rest.take(i)).keys.skip(n).contains(k)) by {
            assert(rest[i] == ops[i]);
            assert(rest.take(i) =~= ops.take(i));
        }
        lemma_assigned(v, rest);
        let u = assigned(v, rest);
        let w = assigned(v, ops);
        let last = ops.last();
        assert(ops.take(ops.len() - 1) =~= rest);
        assert(ops[ops.len() - 1] == last);
        match last {
            Assign::Let(k, x) => {
                assert(w == u.pushed(k, x));
                assert(grown_at(v, u, rest, k));
                if u.env.contains_key(k) {
                    assert(w.keys == u.keys);
                    assert forall|q: Seq<char>| #[trigger] grown_at(v, w, ops, q) by {
                        assert(grown_at(v, u, rest, q));
                        lemma_exported_step(ops, q);
                    }
                } else {
                    assert(w.keys.take(n) =~= u.keys.take(n));
                    assert(w.keys.skip(n) =~= u.keys.skip(n).push(k));
                    assert forall|q: Seq<char>| #[trigger] grown_at(v, w, ops, q) by {
                        assert(grown_at(v, u, rest, q));
                        lemma_exported_step(ops, q);
                        lemma_pushed_contains(u.keys.skip(n), k, q);
                    }
                }
            },
            Assign::Export(k, x) => {
                assert(w == u.gpushed(k, x));
                assert(w.keys == u.keys);
                assert(!u.keys.skip(n).contains(k));
                assert forall|q: Seq<char>| #[trigger] grown_at(v, w, ops, q) by {
                    assert(grown_at(v, u, rest, q));
                    lemma_exported_step(ops, q);
                }
            },
        }
    }
}

/// A scope leaves the environment as it found it, but for what was
/// exported inside: after `mark`, any `let` and `export`, and `drop`, the
/// environment has the names that it had before and those that were
/// exported, and no others, and as many scopes are open as before.
///
/// This is stated of scopes in which no name is exported after a `let` of
/// the same scope has brought it into the environment: such a name leaves
/// with the scope although it was exported.
pub proof fn law_scope_restores_names(v: VarsView, ops: Seq<Assign>)
    requires
        v.wf(),
        exports_stay(v.marked(), ops),
    ensures
        assigned(v.marked(), ops).dropped().depth() == v.depth(),
        assigned(v.marked(), ops).dropped().keys == v.keys,
        forall|k: Seq<char>| #[trigger]
            assigned(v.marked(), ops).dropped().env.contains_key(k) <==> (v.env.contains_key(k)
                || exported(ops, k)),
{
    let m = v.marked();
    assert(m.wf());
    lemma_assigned(m, ops);
    let w = assigned(m, ops);
    let d = w.dropped();
    let n = v.keys.len() as int;
    assert(m.keys == v.keys && m.env == v.env);
    assert(w.offsets == v.offsets.push(v.keys.len()));
    assert(w.last_mark() == n);
    assert(d.offsets =~= v.offsets);
    assert(d.keys =~= v.keys);
    assert forall|k: Seq<char>| #[trigger]
        d.env.contains_key(k) <==> (v.env.contains_key(k) || exported(ops, k)) by {
        assert(grown_at(m, w, ops, k));
        assert(w.keys.skip(n).to_set().contains(k) <==> w.keys.skip(n).contains(k));
        assert(d.env.contains_key(k) <==> (w.env.contains_key(k) && !w.keys.skip(n).contains(k)));
    }
}

} // verus!
