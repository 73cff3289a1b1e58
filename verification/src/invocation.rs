//! The concrete shape of one process spawn: an argument vector, a set
//! of environment overrides, and an optional working directory. Also
//! the process-wide configuration every invocation builder reads.

use vstd::prelude::*;

use crate::strutil::{join_comma, spec_join_comma, spec_udec, u32_dec};

verus! {

/// One process spawn, fully determined: the program, its arguments in
/// order, environment overrides applied on top of the inherited
/// environment (override wins on collision), and an optional working
/// directory.
#[derive(Debug)]
pub struct Invocation {
    pub program: String,
    pub args: Vec<String>,
    pub env: Vec<(String, String)>,
    pub cwd: Option<String>,
}

/// The single process-wide setting: an optional working directory,
/// written at most once during startup and read by every invocation
/// builder thereafter.
#[derive(Debug)]
pub struct ProcessWideConfig {
    pub workspace_root: Option<String>,
}

impl ProcessWideConfig {
    /// A configuration with no working directory set.
    pub fn new() -> (r: ProcessWideConfig)
        ensures
            r.workspace_root is None,
    {
        ProcessWideConfig { workspace_root: None }
    }
}

/// Records the working directory for all subsequent invocations. The
/// value can be set only once: a second call is a configuration error
/// that the precondition rules out.
pub fn set_workspace_root(config: &mut ProcessWideConfig, root: String)
    requires
        old(config).workspace_root is None,
    ensures
        final(config).workspace_root.deep_view() == Some(root@),
{
    config.workspace_root = Some(root);
}

/// Applies the configured working directory, if any, to an invocation;
/// an unset configuration leaves the invocation unchanged.
pub fn apply_workspace_root(config: &ProcessWideConfig, inv: &mut Invocation)
    ensures
        final(inv).cwd.deep_view() == match config.workspace_root.deep_view() {
            Some(root) => Some(root),
            None => old(inv).cwd.deep_view(),
        },
        final(inv).program == old(inv).program,
        final(inv).args == old(inv).args,
        final(inv).env == old(inv).env,
{
    match &config.workspace_root {
        Some(root) => {
            inv.cwd = Some(root.clone());
        },
        None => {},
    }
}

/// A conditional bare flag: present exactly when `c` holds.
pub open spec fn seg_flag(c: bool, f: Seq<char>) -> Seq<Seq<char>> {
    if c {
        seq![f]
    } else {
        Seq::<Seq<char>>::empty()
    }
}

/// A named option with a value, present exactly when the value is.
pub open spec fn seg_opt(name: Seq<char>, v: Option<Seq<char>>) -> Seq<Seq<char>> {
    match v {
        Some(s) => seq![name, s],
        None => Seq::<Seq<char>>::empty(),
    }
}

/// `name item` pairs, one per item, in order.
pub open spec fn spec_pairs(name: Seq<char>, items: Seq<Seq<char>>) -> Seq<Seq<char>>
    decreases items.len(),
{
    if items.len() == 0 {
        Seq::<Seq<char>>::empty()
    } else {
        seq![name, items[0]] + spec_pairs(name, items.drop_first())
    }
}

/// A repeated named option, one `name item` pair per item.
pub open spec fn seg_each(name: Seq<char>, v: Option<Seq<Seq<char>>>) -> Seq<Seq<char>> {
    match v {
        Some(items) => spec_pairs(name, items),
        None => Seq::<Seq<char>>::empty(),
    }
}

/// Bare positional items, in order.
pub open spec fn seg_items(v: Option<Seq<Seq<char>>>) -> Seq<Seq<char>> {
    match v {
        Some(items) => items,
        None => Seq::<Seq<char>>::empty(),
    }
}

/// A named option whose value is the comma-joined list.
pub open spec fn seg_join(name: Seq<char>, v: Option<Seq<Seq<char>>>) -> Seq<Seq<char>> {
    match v {
        Some(items) => seq![name, spec_join_comma(items)],
        None => Seq::<Seq<char>>::empty(),
    }
}

/// As `seg_join`, but an empty list contributes nothing at all.
pub open spec fn seg_join_nonempty(name: Seq<char>, v: Option<Seq<Seq<char>>>) -> Seq<Seq<char>> {
    match v {
        Some(items) => if items.len() > 0 {
            seq![name, spec_join_comma(items)]
        } else {
            Seq::<Seq<char>>::empty()
        },
        None => Seq::<Seq<char>>::empty(),
    }
}

/// As `seg_join`, but an empty list contributes the bare option name.
pub open spec fn seg_join_or_bare(name: Seq<char>, v: Option<Seq<Seq<char>>>) -> Seq<Seq<char>> {
    match v {
        Some(items) => if items.len() > 0 {
            seq![name, spec_join_comma(items)]
        } else {
            seq![name]
        },
        None => Seq::<Seq<char>>::empty(),
    }
}

/// A bare positional value, present exactly when the value is.
pub open spec fn seg_opt_item(v: Option<Seq<char>>) -> Seq<Seq<char>> {
    match v {
        Some(s) => seq![s],
        None => Seq::<Seq<char>>::empty(),
    }
}

/// A named option carrying a decimal integer, present when the value
/// is.
pub open spec fn seg_opt_u32(name: Seq<char>, v: Option<u32>) -> Seq<Seq<char>> {
    match v {
        Some(n) => seq![name, spec_udec(n as nat)],
        None => Seq::<Seq<char>>::empty(),
    }
}

/// The boolean an optional flag field stands for, given its default.
pub open spec fn opt_or(v: Option<bool>, d: bool) -> bool {
    match v {
        Some(b) => b,
        None => d,
    }
}

/// The boolean an optional flag field stands for, defaulting to
/// `false`.
pub fn opt_true(v: &Option<bool>) -> (r: bool)
    ensures
        r == opt_or(*v, false),
{
    match v {
        Some(b) => *b,
        None => false,
    }
}

/// Everything but the argument vector is unchanged, and the argument
/// vector grew by exactly `seg`.
pub open spec fn args_extended(pre: Invocation, post: Invocation, seg: Seq<Seq<char>>) -> bool {
    &&& post.program == pre.program
    &&& post.env == pre.env
    &&& post.cwd == pre.cwd
    &&& post.args.deep_view() == pre.args.deep_view() + seg
}

proof fn lemma_pairs_push(name: Seq<char>, items: Seq<Seq<char>>, x: Seq<char>)
    ensures
        spec_pairs(name, items.push(x)) == spec_pairs(name, items) + seq![name, x],
    decreases items.len(),
{
    if items.len() == 0 {
        assert(items.push(x).drop_first() =~= Seq::<Seq<char>>::empty());
        assert(items.push(x)[0] == x);
        assert(spec_pairs(name, Seq::<Seq<char>>::empty()) =~= Seq::<Seq<char>>::empty());
        assert(spec_pairs(name, items.push(x)) =~= seq![name, x]);
        assert(spec_pairs(name, items) + seq![name, x] =~= seq![name, x]);
    } else {
        assert(items.push(x).drop_first() =~= items.drop_first().push(x));
        lemma_pairs_push(name, items.drop_first(), x);
        assert(seq![name, items[0]] + (spec_pairs(name, items.drop_first()) + seq![name, x])
            =~= (seq![name, items[0]] + spec_pairs(name, items.drop_first())) + seq![name, x]);
    }
}

impl Invocation {
    /// A fresh invocation of `program` with no arguments, no
    /// environment overrides and no working directory.
    pub fn new(program: &str) -> (r: Invocation)
        ensures
            r.program@ == program@,
            r.args.deep_view() == Seq::<Seq<char>>::empty(),
            r.env.deep_view() == Seq::<(Seq<char>, Seq<char>)>::empty(),
            r.cwd is None,
    {
        let r = Invocation {
            program: program.to_owned(),
            args: Vec::new(),
            env: Vec::new(),
            cwd: None,
        };
        proof {
            assert(r.args.deep_view() =~= Seq::<Seq<char>>::empty());
            assert(r.env.deep_view() =~= Seq::<(Seq<char>, Seq<char>)>::empty());
        }
        r
    }

    /// Appends one argument.
    pub fn arg(&mut self, a: &str)
        ensures
            args_extended(*old(self), *final(self), seq![a@]),
    {
        let ghost pre = self.args.deep_view();
        self.args.push(a.to_owned());
        proof {
            assert(self.args.deep_view() =~= pre + seq![a@]);
        }
    }

    /// Appends `f` exactly when `c` holds.
    pub fn flag_if(&mut self, c: bool, f: &str)
        ensures
            args_extended(*old(self), *final(self), seg_flag(c, f@)),
    {
        if c {
            self.arg(f);
        } else {
            proof {
                assert(self.args.deep_view() =~= self.args.deep_view() + Seq::<
                    Seq<char>,
                >::empty());
            }
        }
    }

    /// Appends `name` and the value when the value is present.
    pub fn opt(&mut self, name: &str, v: &Option<String>)
        ensures
            args_extended(*old(self), *final(self), seg_opt(name@, v.deep_view())),
    {
        match v {
            Some(s) => {
                let ghost pre = self.args.deep_view();
                self.arg(name);
                self.arg(s.as_str());
                proof {
                    assert(pre + seq![name@] + seq![s@] =~= pre + seq![name@, s@]);
                }
            },
            None => {
                proof {
                    assert(self.args.deep_view() =~= self.args.deep_view() + Seq::<
                        Seq<char>,
                    >::empty());
                }
            },
        }
    }

    /// Appends one `name item` pair per item, in order.
    pub fn each(&mut self, name: &str, v: &Option<Vec<String>>)
        ensures
            args_extended(*old(self), *final(self), seg_each(name@, v.deep_view())),
    {
        match v {
            Some(items) => {
                let ghost pre = self.args.deep_view();
                let n = items.len();
                let mut i: usize = 0;
                proof {
                    assert(spec_pairs(name@, items.deep_view().take(0)) =~= Seq::<
                        Seq<char>,
                    >::empty());
                    assert(pre + Seq::<Seq<char>>::empty() =~= pre);
                }
                while i < n
                    invariant
                        n == items.len(),
                        i <= n,
                        self.program == old(self).program,
                        self.env == old(self).env,
                        self.cwd == old(self).cwd,
                        self.args.deep_view() == pre + spec_pairs(
                            name@,
                            items.deep_view().take(i as int),
                        ),
                    decreases n - i,
                {
                    let ghost mid = self.args.deep_view();
                    self.arg(name);
                    self.arg(items[i].as_str());
                    proof {
                        lemma_pairs_push(name@, items.deep_view().take(i as int), items@[
                            i as int]@);
                        assert(items.deep_view().take(i as int + 1) =~= items.deep_view().take(
                            i as int,
                        ).push(items@[i as int]@));
                        assert(mid + seq![name@] + seq![items@[i as int]@] =~= pre + (spec_pairs(
                            name@,
                            items.deep_view().take(i as int),
                        ) + seq![name@, items@[i as int]@]));
                    }
                    i = i + 1;
                }
                proof {
                    assert(items.deep_view().take(n as int) =~= items.deep_view());
                }
            },
            None => {
                proof {
                    assert(self.args.deep_view() =~= self.args.deep_view() + Seq::<
                        Seq<char>,
                    >::empty());
                }
            },
        }
    }

    /// Appends the items themselves, in order.
    pub fn items(&mut self, v: &Option<Vec<String>>)
        ensures
            args_extended(*old(self), *final(self), seg_items(v.deep_view())),
    {
        match v {
            Some(list) => {
                let ghost pre = self.args.deep_view();
                let n = list.len();
                let mut i: usize = 0;
                proof {
                    assert(pre + list.deep_view().take(0) =~= pre);
                }
                while i < n
                    invariant
                        n == list.len(),
                        i <= n,
                        self.program == old(self).program,
                        self.env == old(self).env,
                        self.cwd == old(self).cwd,
                        self.args.deep_view() == pre + list.deep_view().take(i as int),
                    decreases n - i,
                {
                    self.arg(list[i].as_str());
                    proof {
                        assert(list.deep_view().take(i as int + 1) =~= list.deep_view().take(
                            i as int,
                        ).push(list@[i as int]@));
                        assert(pre + list.deep_view().take(i as int) + seq![list@[i as int]@]
                            =~= pre + list.deep_view().take(i as int + 1));
                    }
                    i = i + 1;
                }
                proof {
                    assert(list.deep_view().take(n as int) =~= list.deep_view());
                }
            },
            None => {
                proof {
                    assert(self.args.deep_view() =~= self.args.deep_view() + Seq::<
                        Seq<char>,
                    >::empty());
                }
            },
        }
    }

    /// Appends every item of the list, in order.
    pub fn all_items(&mut self, list: &Vec<String>)
        ensures
            args_extended(*old(self), *final(self), list.deep_view()),
    {
        let ghost pre = self.args.deep_view();
        let n = list.len();
        let mut i: usize = 0;
        proof {
            assert(pre + list.deep_view().take(0) =~= pre);
        }
        while i < n
            invariant
                n == list.len(),
                i <= n,
                self.program == old(self).program,
                self.env == old(self).env,
                self.cwd == old(self).cwd,
                self.args.deep_view() == pre + list.deep_view().take(i as int),
            decreases n - i,
        {
            self.arg(list[i].as_str());
            proof {
                assert(list.deep_view().take(i as int + 1) =~= list.deep_view().take(i as int).push(
                    list@[i as int]@,
                ));
                assert(pre + list.deep_view().take(i as int) + seq![list@[i as int]@] =~= pre
                    + list.deep_view().take(i as int + 1));
            }
            i = i + 1;
        }
        proof {
            assert(list.deep_view().take(n as int) =~= list.deep_view());
        }
    }

    /// Appends static flags, in order.
    pub fn flags(&mut self, list: &Vec<&'static str>)
        ensures
            args_extended(*old(self), *final(self), list.deep_view()),
    {
        let ghost pre = self.args.deep_view();
        let n = list.len();
        let mut i: usize = 0;
        proof {
            assert(pre + list.deep_view().take(0) =~= pre);
        }
        while i < n
            invariant
                n == list.len(),
                i <= n,
                self.program == old(self).program,
                self.env == old(self).env,
                self.cwd == old(self).cwd,
                self.args.deep_view() == pre + list.deep_view().take(i as int),
            decreases n - i,
        {
            self.arg(list[i]);
            proof {
                assert(list.deep_view().take(i as int + 1) =~= list.deep_view().take(i as int).push(
                    list@[i as int]@,
                ));
                assert(pre + list.deep_view().take(i as int) + seq![list@[i as int]@] =~= pre
                    + list.deep_view().take(i as int + 1));
            }
            i = i + 1;
        }
        proof {
            assert(list.deep_view().take(n as int) =~= list.deep_view());
        }
    }

    /// Appends `name` and the comma-joined list when present.
    pub fn join_list(&mut self, name: &str, v: &Option<Vec<String>>)
        ensures
            args_extended(*old(self), *final(self), seg_join(name@, v.deep_view())),
    {
        match v {
            Some(items) => {
                let ghost pre = self.args.deep_view();
                let joined = join_comma(items);
                self.arg(name);
                self.arg(joined.as_str());
                proof {
                    assert(pre + seq![name@] + seq![joined@] =~= pre + seq![name@, joined@]);
                }
            },
            None => {
                proof {
                    assert(self.args.deep_view() =~= self.args.deep_view() + Seq::<
                        Seq<char>,
                    >::empty());
                }
            },
        }
    }

    /// As `join_list`, but a present-but-empty list contributes
    /// nothing.
    pub fn join_list_nonempty(&mut self, name: &str, v: &Option<Vec<String>>)
        ensures
            args_extended(*old(self), *final(self), seg_join_nonempty(name@, v.deep_view())),
    {
        match v {
            Some(items) => {
                if items.len() > 0 {
                    let ghost pre = self.args.deep_view();
                    let joined = join_comma(items);
                    self.arg(name);
                    self.arg(joined.as_str());
                    proof {
                        assert(pre + seq![name@] + seq![joined@] =~= pre + seq![name@, joined@]);
                    }
                } else {
                    proof {
                        assert(self.args.deep_view() =~= self.args.deep_view() + Seq::<
                            Seq<char>,
                        >::empty());
                    }
                }
            },
            None => {
                proof {
                    assert(self.args.deep_view() =~= self.args.deep_view() + Seq::<
                        Seq<char>,
                    >::empty());
                }
            },
        }
    }

    /// As `join_list`, but a present-but-empty list contributes the
    /// bare option name.
    pub fn join_list_or_bare(&mut self, name: &str, v: &Option<Vec<String>>)
        ensures
            args_extended(*old(self), *final(self), seg_join_or_bare(name@, v.deep_view())),
    {
        match v {
            Some(items) => {
                if items.len() > 0 {
                    let ghost pre = self.args.deep_view();
                    let joined = join_comma(items);
                    self.arg(name);
                    self.arg(joined.as_str());
                    proof {
                        assert(pre + seq![name@] + seq![joined@] =~= pre + seq![name@, joined@]);
                    }
                } else {
                    self.arg(name);
                }
            },
            None => {
                proof {
                    assert(self.args.deep_view() =~= self.args.deep_view() + Seq::<
                        Seq<char>,
                    >::empty());
                }
            },
        }
    }

    /// Appends the bare value when present.
    pub fn opt_item(&mut self, v: &Option<String>)
        ensures
            args_extended(*old(self), *final(self), seg_opt_item(v.deep_view())),
    {
        match v {
            Some(s) => {
                self.arg(s.as_str());
            },
            None => {
                proof {
                    assert(self.args.deep_view() =~= self.args.deep_view() + Seq::<
                        Seq<char>,
                    >::empty());
                }
            },
        }
    }

    /// Appends `name` and the decimal value when present.
    pub fn opt_u32(&mut self, name: &str, v: &Option<u32>)
        ensures
            args_extended(*old(self), *final(self), seg_opt_u32(name@, *v)),
    {
        match v {
            Some(n) => {
                let ghost pre = self.args.deep_view();
                let text = u32_dec(*n);
                self.arg(name);
                self.arg(text.as_str());
                proof {
                    assert(pre + seq![name@] + seq![text@] =~= pre + seq![name@, text@]);
                }
            },
            None => {
                proof {
                    assert(self.args.deep_view() =~= self.args.deep_view() + Seq::<
                        Seq<char>,
                    >::empty());
                }
            },
        }
    }

    /// Records an environment override exactly when `c` holds; the
    /// arguments are untouched.
    pub fn env_if(&mut self, c: bool, key: &str, value: &str)
        ensures
            final(self).env.deep_view() == old(self).env.deep_view() + (if c {
                seq![(key@, value@)]
            } else {
                Seq::<(Seq<char>, Seq<char>)>::empty()
            }),
            final(self).program == old(self).program,
            final(self).args == old(self).args,
            final(self).cwd == old(self).cwd,
    {
        if c {
            let ghost pre = self.env.deep_view();
            self.env.push((key.to_owned(), value.to_owned()));
            proof {
                assert(self.env.deep_view() =~= pre + seq![(key@, value@)]);
            }
        } else {
            proof {
                assert(self.env.deep_view() =~= self.env.deep_view() + Seq::<
                    (Seq<char>, Seq<char>),
                >::empty());
            }
        }
    }
}

} // verus!
