//! The command registry: many namespaced executors behind one flat,
//! collision-checked command table.
//!
//! Construction inserts every executor under its namespace — failing on a
//! repeated namespace — then enumerates each executor's advertised commands,
//! qualifies them as `namespace:subcommand`, and inserts them into one
//! lookup table per category, failing on a repeated qualified name. A
//! manager is built once; its table never changes afterwards. Dispatch
//! resolves a qualified name to its `(namespace, subcommand)` pair, and the
//! embedding program hands the subcommand to the executor registered under
//! that namespace.

use crate::names::{
    contains_string, distinct_names, has_duplicate_of, lemma_deep_view_push, qualified,
    spec_qualified,
};
use vstd::prelude::*;
use vstd::string::*;

verus! {

/// A construction-time failure: the configuration is rejected and no
/// registry is built.
#[derive(Debug, PartialEq)]
pub enum RegistryError {
    /// Two executors share this namespace.
    DuplicateNamespace(String),
    /// Two advertised commands share this qualified name.
    DuplicateCommand(String),
}

/// A dispatch failure.
#[derive(Debug, PartialEq)]
pub enum DispatchError {
    /// The qualified name is not in the registry; no executor was involved.
    UnknownCommand,
}

/// What one executor advertises: its namespace and its two command sets.
#[derive(Debug)]
pub struct ExecutorProfile {
    pub namespace: String,
    pub null_commands: Vec<String>,
    pub bool_commands: Vec<String>,
}

/// Mathematical model of an [`ExecutorProfile`].
pub ghost struct ProfileModel {
    pub namespace: Seq<char>,
    pub null_commands: Seq<Seq<char>>,
    pub bool_commands: Seq<Seq<char>>,
}

impl View for ExecutorProfile {
    type V = ProfileModel;

    open spec fn view(&self) -> ProfileModel {
        ProfileModel {
            namespace: self.namespace@,
            null_commands: self.null_commands.deep_view(),
            bool_commands: self.bool_commands.deep_view(),
        }
    }
}

impl DeepView for ExecutorProfile {
    type V = ProfileModel;

    open spec fn deep_view(&self) -> ProfileModel {
        self.view()
    }
}

/// An executor tagged with a unique namespace, the dispatch prefix for its
/// commands.
pub trait NamespacedCommandExecutor {
    /// The model of this executor's namespace.
    spec fn namespace_spec(&self) -> Seq<char>;

    /// Returns the namespace for this executor, which prefixes any command
    /// dispatched to it. Immutable for the executor's lifetime.
    fn get_executor_namespace(&self) -> (r: &str)
        ensures
            r@ == self.namespace_spec(),
    ;
}

impl NamespacedCommandExecutor for ExecutorProfile {
    open spec fn namespace_spec(&self) -> Seq<char> {
        self.namespace@
    }

    fn get_executor_namespace(&self) -> (r: &str) {
        self.namespace.as_str()
    }
}

/// One row of a lookup table: a qualified name and the `(namespace,
/// subcommand)` pair it resolves to.
#[derive(Debug)]
pub struct CommandEntry {
    pub command: String,
    pub namespace: String,
    pub subcommand: String,
}

/// Mathematical model of a [`CommandEntry`].
pub ghost struct EntryModel {
    pub command: Seq<char>,
    pub namespace: Seq<char>,
    pub subcommand: Seq<char>,
}

impl View for CommandEntry {
    type V = EntryModel;

    open spec fn view(&self) -> EntryModel {
        EntryModel {
            command: self.command@,
            namespace: self.namespace@,
            subcommand: self.subcommand@,
        }
    }
}

impl DeepView for CommandEntry {
    type V = EntryModel;

    open spec fn deep_view(&self) -> EntryModel {
        self.view()
    }
}

/// The namespaces of the profiles, in order.
pub open spec fn spec_namespaces(ps: Seq<ProfileModel>) -> Seq<Seq<char>> {
    Seq::new(ps.len(), |i: int| ps[i].namespace)
}

/// The table rows one profile contributes for one category's subcommands.
pub open spec fn spec_profile_entries(ns: Seq<char>, subs: Seq<Seq<char>>) -> Seq<EntryModel> {
    Seq::new(
        subs.len(),
        |i: int|
            EntryModel {
                command: spec_qualified(ns, subs[i]),
                namespace: ns,
                subcommand: subs[i],
            },
    )
}

/// The table rows of one category over all profiles, in construction order.
pub open spec fn spec_entries(
    ps: Seq<ProfileModel>,
    subs_of: spec_fn(ProfileModel) -> Seq<Seq<char>>,
) -> Seq<EntryModel>
    decreases ps.len(),
{
    if ps.len() == 0 {
        Seq::<EntryModel>::empty()
    } else {
        spec_entries(ps.drop_last(), subs_of) + spec_profile_entries(
            ps.last().namespace,
            subs_of(ps.last()),
        )
    }
}

/// The null-category subcommands of a profile.
pub open spec fn null_subs() -> spec_fn(ProfileModel) -> Seq<Seq<char>> {
    |p: ProfileModel| p.null_commands
}

/// The boolean-category subcommands of a profile.
pub open spec fn bool_subs() -> spec_fn(ProfileModel) -> Seq<Seq<char>> {
    |p: ProfileModel| p.bool_commands
}

/// The null-command table rows over all profiles.
pub open spec fn spec_null_entries(ps: Seq<ProfileModel>) -> Seq<EntryModel> {
    spec_entries(ps, null_subs())
}

/// The boolean-command table rows over all profiles.
pub open spec fn spec_bool_entries(ps: Seq<ProfileModel>) -> Seq<EntryModel> {
    spec_entries(ps, bool_subs())
}

/// The qualified names of the rows, in order.
pub open spec fn commands_of(es: Seq<EntryModel>) -> Seq<Seq<char>> {
    Seq::new(es.len(), |i: int| es[i].command)
}

/// Appending one profile appends its rows.
pub proof fn lemma_entries_snoc(
    ps: Seq<ProfileModel>,
    subs_of: spec_fn(ProfileModel) -> Seq<Seq<char>>,
    k: int,
)
    requires
        0 <= k < ps.len(),
    ensures
        spec_entries(ps.take(k + 1), subs_of) == spec_entries(ps.take(k), subs_of)
            + spec_profile_entries(ps[k].namespace, subs_of(ps[k])),
{
    assert(ps.take(k + 1).drop_last() =~= ps.take(k));
    assert(ps.take(k + 1).last() == ps[k]);
}

/// The rows of a prefix of the profiles are a prefix of the rows.
pub proof fn lemma_entries_prefix(
    ps: Seq<ProfileModel>,
    subs_of: spec_fn(ProfileModel) -> Seq<Seq<char>>,
    k: int,
)
    requires
        0 <= k <= ps.len(),
    ensures
        spec_entries(ps.take(k), subs_of).len() <= spec_entries(ps, subs_of).len(),
        forall|i: int|
            0 <= i < spec_entries(ps.take(k), subs_of).len() ==> spec_entries(ps, subs_of)[i]
                == spec_entries(ps.take(k), subs_of)[i],
    decreases ps.len() - k,
{
    if k == ps.len() {
        assert(ps.take(k) =~= ps);
    } else {
        lemma_entries_snoc(ps, subs_of, k);
        lemma_entries_prefix(ps, subs_of, k + 1);
    }
}

/// Row `i` of the category's table is the qualified form of some profile's
/// advertised subcommand, resolving to that profile's namespace.
pub open spec fn row_is_qualified(
    ps: Seq<ProfileModel>,
    subs_of: spec_fn(ProfileModel) -> Seq<Seq<char>>,
    i: int,
) -> bool {
    exists|k: int, j: int|
        #![trigger spec_profile_entries(ps[k].namespace, subs_of(ps[k]))[j]]
        0 <= k < ps.len() && 0 <= j < subs_of(ps[k]).len() && spec_entries(ps, subs_of)[i]
            == spec_profile_entries(ps[k].namespace, subs_of(ps[k]))[j]
}

/// The table of one category holds exactly the union of the profiles'
/// qualified names: every profile's advertised subcommand appears
/// qualified, and every row is some profile's qualified subcommand,
/// resolving to that profile's namespace.
pub proof fn lemma_entries_exactly_qualified(
    ps: Seq<ProfileModel>,
    subs_of: spec_fn(ProfileModel) -> Seq<Seq<char>>,
)
    ensures
        forall|k: int, j: int|
            0 <= k < ps.len() && 0 <= j < subs_of(ps[k]).len() ==> commands_of(
                spec_entries(ps, subs_of),
            ).contains(spec_qualified(ps[k].namespace, #[trigger] subs_of(ps[k])[j])),
        forall|i: int|
            0 <= i < spec_entries(ps, subs_of).len() ==> #[trigger] row_is_qualified(
                ps,
                subs_of,
                i,
            ),
    decreases ps.len(),
{
    if ps.len() == 0 {
        assert(spec_entries(ps, subs_of).len() == 0);
    } else {
        let d = ps.drop_last();
        lemma_entries_exactly_qualified(d, subs_of);
        let whole = spec_entries(ps, subs_of);
        let prev = spec_entries(d, subs_of);
        let lastrows = spec_profile_entries(ps.last().namespace, subs_of(ps.last()));
        assert(whole == prev + lastrows);
        assert forall|k: int, j: int|
            0 <= k < ps.len() && 0 <= j < subs_of(ps[k]).len() implies commands_of(
            whole,
        ).contains(spec_qualified(ps[k].namespace, #[trigger] subs_of(ps[k])[j])) by {
            let q = spec_qualified(ps[k].namespace, subs_of(ps[k])[j]);
            if k < ps.len() - 1 {
                assert(d[k] == ps[k]);
                assert(commands_of(prev).contains(q));
                let i = choose|i: int|
                    0 <= i < commands_of(prev).len() && commands_of(prev)[i] == q;
                assert(whole[i] == prev[i]);
                assert(commands_of(whole)[i] == q);
            } else {
                assert(ps.last() == ps[k]);
                let i = prev.len() + j;
                assert(whole[i] == lastrows[j]);
                assert(commands_of(whole)[i] == q);
            }
        }
        assert forall|i: int| 0 <= i < whole.len() implies #[trigger] row_is_qualified(
            ps,
            subs_of,
            i,
        ) by {
            if i < prev.len() {
                assert(prev[i] == whole[i]);
                assert(row_is_qualified(d, subs_of, i));
                let (k, j) = choose|k: int, j: int|
                    #![trigger spec_profile_entries(d[k].namespace, subs_of(d[k]))[j]]
                    0 <= k < d.len() && 0 <= j < subs_of(d[k]).len() && spec_entries(d, subs_of)[i]
                        == spec_profile_entries(d[k].namespace, subs_of(d[k]))[j];
                assert(d[k] == ps[k]);
                assert(spec_entries(ps, subs_of)[i] == spec_profile_entries(
                    ps[k].namespace,
                    subs_of(ps[k]),
                )[j]);
            } else {
                let k = ps.len() - 1;
                let j = i - prev.len();
                assert(ps.last() == ps[k]);
                assert(spec_entries(ps, subs_of)[i] == spec_profile_entries(
                    ps[k].namespace,
                    subs_of(ps[k]),
                )[j]);
            }
        }
    }
}

/// The command registry: the registered namespaces and one lookup table per
/// category, each row mapping a qualified name to its `(namespace,
/// subcommand)` pair.
#[derive(Debug)]
pub struct CommandExecutorManager {
    pub namespaces: Vec<String>,
    pub null_commands_to_namespace_and_subcommand: Vec<CommandEntry>,
    pub bool_commands_to_namespace_and_subcommand: Vec<CommandEntry>,
}

impl CommandExecutorManager {
    /// Namespaces and qualified names are pairwise distinct, and every row
    /// resolves to a registered namespace.
    pub open spec fn wf(self) -> bool {
        &&& distinct_names(self.namespaces.deep_view())
        &&& distinct_names(commands_of(self.null_commands_to_namespace_and_subcommand.deep_view()))
        &&& distinct_names(commands_of(self.bool_commands_to_namespace_and_subcommand.deep_view()))
        &&& forall|i: int|
            0 <= i < self.null_commands_to_namespace_and_subcommand.deep_view().len()
                ==> self.namespaces.deep_view().contains(
                #[trigger] self.null_commands_to_namespace_and_subcommand.deep_view()[i].namespace,
            )
        &&& forall|i: int|
            0 <= i < self.bool_commands_to_namespace_and_subcommand.deep_view().len()
                ==> self.namespaces.deep_view().contains(
                #[trigger] self.bool_commands_to_namespace_and_subcommand.deep_view()[i].namespace,
            )
    }

    /// Builds the registry from the executors' profiles. Construction fails
    /// with `DuplicateNamespace` exactly when two profiles share a
    /// namespace, and otherwise with `DuplicateCommand` exactly when a
    /// qualified name repeats within a category; on success the tables hold
    /// exactly every qualified name, each resolving to its contributor.
    pub fn new(command_executors: Vec<ExecutorProfile>) -> (r: Result<
        CommandExecutorManager,
        RegistryError,
    >)
        ensures
            ({
                let ps = command_executors.deep_view();
                &&& (r is Ok <==> distinct_names(spec_namespaces(ps)) && distinct_names(
                    commands_of(spec_null_entries(ps)),
                ) && distinct_names(commands_of(spec_bool_entries(ps))))
                &&& (r matches Ok(m) ==> {
                    &&& m.namespaces.deep_view() == spec_namespaces(ps)
                    &&& m.null_commands_to_namespace_and_subcommand.deep_view()
                        == spec_null_entries(ps)
                    &&& m.bool_commands_to_namespace_and_subcommand.deep_view()
                        == spec_bool_entries(ps)
                    &&& m.wf()
                })
                &&& ((r matches Err(RegistryError::DuplicateNamespace(_))) <==> !distinct_names(
                    spec_namespaces(ps),
                ))
                &&& (r matches Err(RegistryError::DuplicateNamespace(ns)) ==> has_duplicate_of(
                    spec_namespaces(ps),
                    ns@,
                ))
                &&& ((r matches Err(RegistryError::DuplicateCommand(_))) <==> distinct_names(
                    spec_namespaces(ps),
                ) && !(distinct_names(commands_of(spec_null_entries(ps))) && distinct_names(
                    commands_of(spec_bool_entries(ps)),
                )))
                &&& (r matches Err(RegistryError::DuplicateCommand(q)) ==> has_duplicate_of(
                    commands_of(spec_null_entries(ps)),
                    q@,
                ) || has_duplicate_of(commands_of(spec_bool_entries(ps)), q@))
            }),
    {
        let ghost ps = command_executors.deep_view();
        let mut namespaces: Vec<String> = Vec::new();
        let mut k: usize = 0;
        while k < command_executors.len()
            invariant
                k <= command_executors.len(),
                ps == command_executors.deep_view(),
                namespaces.deep_view() =~= spec_namespaces(ps).take(k as int),
                distinct_names(namespaces.deep_view()),
            decreases command_executors.len() - k,
        {
            proof {
                assert(ps[k as int] == command_executors@[k as int].deep_view());
            }
            let ns = &command_executors[k].namespace;
            if contains_string(&namespaces, ns) {
                proof {
                    let i = choose|i: int|
                        0 <= i < namespaces.deep_view().len() && namespaces.deep_view()[i] == ns@;
                    assert(spec_namespaces(ps)[i] == ns@);
                    assert(spec_namespaces(ps)[k as int] == ns@);
                    assert(has_duplicate_of(spec_namespaces(ps), ns@));
                    assert(!distinct_names(spec_namespaces(ps)));
                }
                return Result::Err(RegistryError::DuplicateNamespace(ns.clone()));
            }
            let ghost pre = namespaces;
            let x = ns.clone();
            let ghost xg = x;
            namespaces.push(x);
            proof {
                lemma_deep_view_push(pre, namespaces, xg);
                assert(namespaces.deep_view() =~= spec_namespaces(ps).take(k as int + 1));
            }
            k = k + 1;
        }
        proof {
            assert(spec_namespaces(ps).take(ps.len() as int) =~= spec_namespaces(ps));
        }

        let mut null_table: Vec<CommandEntry> = Vec::new();
        let mut bool_table: Vec<CommandEntry> = Vec::new();
        let mut k: usize = 0;
        while k < command_executors.len()
            invariant
                k <= command_executors.len(),
                ps == command_executors.deep_view(),
                namespaces.deep_view() == spec_namespaces(ps),
                distinct_names(namespaces.deep_view()),
                null_table.deep_view() == spec_entries(ps.take(k as int), null_subs()),
                bool_table.deep_view() == spec_entries(ps.take(k as int), bool_subs()),
                distinct_names(commands_of(null_table.deep_view())),
                distinct_names(commands_of(bool_table.deep_view())),
                forall|i: int|
                    0 <= i < null_table.deep_view().len() ==> namespaces.deep_view().contains(
                        #[trigger] null_table.deep_view()[i].namespace,
                    ),
                forall|i: int|
                    0 <= i < bool_table.deep_view().len() ==> namespaces.deep_view().contains(
                        #[trigger] bool_table.deep_view()[i].namespace,
                    ),
            decreases command_executors.len() - k,
        {
            proof {
                assert(ps[k as int] == command_executors@[k as int].deep_view());
                assert(spec_namespaces(ps)[k as int] == ps[k as int].namespace);
                lemma_entries_snoc(ps, null_subs(), k as int);
                lemma_entries_prefix(ps, null_subs(), k as int + 1);
                lemma_entries_snoc(ps, bool_subs(), k as int);
                lemma_entries_prefix(ps, bool_subs(), k as int + 1);
            }
            let profile = &command_executors[k];
            if let Option::Some(q) = insert_profile_entries(
                &mut null_table,
                &profile.namespace,
                &profile.null_commands,
                Ghost(spec_entries(ps, null_subs())),
                Ghost(namespaces.deep_view()),
            ) {
                proof {
                    assert(!distinct_names(commands_of(spec_null_entries(ps))));
                }
                return Result::Err(RegistryError::DuplicateCommand(q));
            }
            if let Option::Some(q) = insert_profile_entries(
                &mut bool_table,
                &profile.namespace,
                &profile.bool_commands,
                Ghost(spec_entries(ps, bool_subs())),
                Ghost(namespaces.deep_view()),
            ) {
                proof {
                    assert(!distinct_names(commands_of(spec_bool_entries(ps))));
                }
                return Result::Err(RegistryError::DuplicateCommand(q));
            }
            k = k + 1;
        }
        proof {
            assert(ps.take(ps.len() as int) =~= ps);
        }
        Result::Ok(
            CommandExecutorManager {
                namespaces,
                null_commands_to_namespace_and_subcommand: null_table,
                bool_commands_to_namespace_and_subcommand: bool_table,
            },
        )
    }

    /// All qualified null-returning commands, in table order; stable only as
    /// a set.
    pub fn get_null_commands(&self) -> (r: Vec<String>)
        ensures
            r.deep_view() == commands_of(self.null_commands_to_namespace_and_subcommand.deep_view()),
    {
        table_commands(&self.null_commands_to_namespace_and_subcommand)
    }

    /// All qualified boolean-returning commands, in table order; stable only
    /// as a set.
    pub fn get_bool_commands(&self) -> (r: Vec<String>)
        ensures
            r.deep_view() == commands_of(self.bool_commands_to_namespace_and_subcommand.deep_view()),
    {
        table_commands(&self.bool_commands_to_namespace_and_subcommand)
    }

    /// Resolves a qualified null-returning command to the `(namespace,
    /// subcommand)` pair to delegate to. Fails with `UnknownCommand`, having
    /// involved no executor, exactly when the name is not in the table.
    pub fn execute_null_command(&self, command: &String) -> (r: Result<
        (String, String),
        DispatchError,
    >)
        requires
            self.wf(),
        ensures
            ({
                let table = self.null_commands_to_namespace_and_subcommand.deep_view();
                &&& (r is Ok <==> commands_of(table).contains(command@))
                &&& (r matches Ok(pair) ==> exists|i: int|
                    0 <= i < table.len() && table[i].command == command@ && table[i].namespace
                        == pair.0@ && table[i].subcommand == pair.1@)
                &&& (r matches Ok(pair) ==> self.namespaces.deep_view().contains(pair.0@))
                &&& (r matches Err(e) ==> e == DispatchError::UnknownCommand)
            }),
    {
        resolve(&self.null_commands_to_namespace_and_subcommand, command, Ghost(self.namespaces.deep_view()))
    }

    /// Resolves a qualified boolean-returning command to the `(namespace,
    /// subcommand)` pair to delegate to. Fails with `UnknownCommand`, having
    /// involved no executor, exactly when the name is not in the table.
    pub fn execute_bool_command(&self, command: &String) -> (r: Result<
        (String, String),
        DispatchError,
    >)
        requires
            self.wf(),
        ensures
            ({
                let table = self.bool_commands_to_namespace_and_subcommand.deep_view();
                &&& (r is Ok <==> commands_of(table).contains(command@))
                &&& (r matches Ok(pair) ==> exists|i: int|
                    0 <= i < table.len() && table[i].command == command@ && table[i].namespace
                        == pair.0@ && table[i].subcommand == pair.1@)
                &&& (r matches Ok(pair) ==> self.namespaces.deep_view().contains(pair.0@))
                &&& (r matches Err(e) ==> e == DispatchError::UnknownCommand)
            }),
    {
        resolve(&self.bool_commands_to_namespace_and_subcommand, command, Ghost(self.namespaces.deep_view()))
    }
}

/// Finds the row holding `command`, if any.
fn find_entry(table: &Vec<CommandEntry>, command: &String) -> (r: Option<usize>)
    ensures
        match r {
            Option::Some(i) => 0 <= i < table.deep_view().len() && table.deep_view()[i as int].command
                == command@,
            Option::None => forall|i: int|
                0 <= i < table.deep_view().len() ==> table.deep_view()[i].command != command@,
        },
{
    let mut i: usize = 0;
    while i < table.len()
        invariant
            i <= table.len(),
            forall|j: int| 0 <= j < i ==> table.deep_view()[j].command != command@,
        decreases table.len() - i,
    {
        if table[i].command.eq(command) {
            proof {
                assert(table.deep_view()[i as int].command == command@);
            }
            return Option::Some(i);
        }
        i = i + 1;
    }
    Option::None
}

/// The qualified names of a table, in order.
fn table_commands(table: &Vec<CommandEntry>) -> (r: Vec<String>)
    ensures
        r.deep_view() == commands_of(table.deep_view()),
{
    let mut r: Vec<String> = Vec::new();
    let mut i: usize = 0;
    while i < table.len()
        invariant
            i <= table.len(),
            r.deep_view() =~= commands_of(table.deep_view()).take(i as int),
        decreases table.len() - i,
    {
        let ghost pre = r;
        let x = table[i].command.clone();
        let ghost xg = x;
        r.push(x);
        proof {
            lemma_deep_view_push(pre, r, xg);
            assert(r.deep_view() =~= commands_of(table.deep_view()).take(i as int + 1));
        }
        i = i + 1;
    }
    proof {
        assert(commands_of(table.deep_view()).take(table.deep_view().len() as int) =~= commands_of(
            table.deep_view(),
        ));
    }
    r
}

/// The shared resolution path of dispatch.
fn resolve(table: &Vec<CommandEntry>, command: &String, Ghost(namespaces): Ghost<Seq<Seq<char>>>) -> (r:
    Result<(String, String), DispatchError>)
    requires
        forall|i: int|
            0 <= i < table.deep_view().len() ==> namespaces.contains(
                #[trigger] table.deep_view()[i].namespace,
            ),
    ensures
        ({
            let t = table.deep_view();
            &&& (r is Ok <==> commands_of(t).contains(command@))
            &&& (r matches Ok(pair) ==> exists|i: int|
                0 <= i < t.len() && t[i].command == command@ && t[i].namespace == pair.0@
                    && t[i].subcommand == pair.1@)
            &&& (r matches Ok(pair) ==> namespaces.contains(pair.0@))
            &&& (r matches Err(e) ==> e == DispatchError::UnknownCommand)
        }),
{
    match find_entry(table, command) {
        Option::Some(i) => {
            let entry = &table[i];
            proof {
                assert(commands_of(table.deep_view())[i as int] == command@);
            }
            Result::Ok((entry.namespace.clone(), entry.subcommand.clone()))
        },
        Option::None => {
            proof {
                assert forall|i: int|
                    0 <= i < commands_of(table.deep_view()).len() implies commands_of(
                    table.deep_view(),
                )[i] != command@ by {}
            }
            Result::Err(DispatchError::UnknownCommand)
        },
    }
}

/// Inserts one profile's rows for one category into its table, checking
/// each qualified name against the rows already present. `whole` is the
/// category's full row sequence over all profiles; the table holds the rows
/// of the profiles already processed. Returns the repeated qualified name
/// on a collision, leaving a witness that the category's names repeat.
fn insert_profile_entries(
    table: &mut Vec<CommandEntry>,
    namespace: &String,
    subcommands: &Vec<String>,
    Ghost(whole): Ghost<Seq<EntryModel>>,
    Ghost(namespaces): Ghost<Seq<Seq<char>>>,
) -> (r: Option<String>)
    requires
        old(table).deep_view().len() + subcommands.deep_view().len() <= whole.len(),
        forall|i: int|
            0 <= i < old(table).deep_view().len() ==> whole[i] == #[trigger] old(
                table,
            ).deep_view()[i],
        forall|j: int|
            0 <= j < subcommands.deep_view().len() ==> whole[old(table).deep_view().len() + j]
                == #[trigger] spec_profile_entries(namespace@, subcommands.deep_view())[j],
        distinct_names(commands_of(old(table).deep_view())),
        forall|i: int|
            0 <= i < old(table).deep_view().len() ==> namespaces.contains(
                #[trigger] old(table).deep_view()[i].namespace,
            ),
        namespaces.contains(namespace@),
    ensures
        r is None ==> final(table).deep_view() == old(table).deep_view() + spec_profile_entries(
            namespace@,
            subcommands.deep_view(),
        ),
        r is None ==> distinct_names(commands_of(final(table).deep_view())),
        r is None ==> forall|i: int|
            0 <= i < final(table).deep_view().len() ==> namespaces.contains(
                #[trigger] final(table).deep_view()[i].namespace,
            ),
        r matches Some(q) ==> has_duplicate_of(commands_of(whole), q@),
{
    let ghost done = old(table).deep_view();
    let ghost profile_rows = spec_profile_entries(namespace@, subcommands.deep_view());
    let mut j: usize = 0;
    while j < subcommands.len()
        invariant
            j <= subcommands.len(),
            subcommands.deep_view().len() == subcommands@.len(),
            done.len() + subcommands.deep_view().len() <= whole.len(),
            profile_rows == spec_profile_entries(namespace@, subcommands.deep_view()),
            profile_rows.len() == subcommands.deep_view().len(),
            forall|i: int| 0 <= i < done.len() ==> whole[i] == done[i],
            forall|jj: int|
                0 <= jj < subcommands.deep_view().len() ==> whole[done.len() + jj]
                    == #[trigger] profile_rows[jj],
            table.deep_view() =~= done + profile_rows.take(j as int),
            distinct_names(commands_of(table.deep_view())),
            forall|i: int|
                0 <= i < table.deep_view().len() ==> namespaces.contains(
                    #[trigger] table.deep_view()[i].namespace,
                ),
            namespaces.contains(namespace@),
        decreases subcommands.len() - j,
    {
        proof {
            assert(subcommands.deep_view()[j as int] == subcommands@[j as int]@);
        }
        let q = qualified(namespace, &subcommands[j]);
        let ghost pos = done.len() + j;
        proof {
            assert(profile_rows[j as int].command == q@);
            assert(whole[pos].command == q@);
        }
        if let Option::Some(idx) = find_entry(table, &q) {
            proof {
                let t = table.deep_view();
                assert(t[idx as int].command == q@);
                if idx < done.len() {
                    assert(whole[idx as int] == done[idx as int]);
                } else {
                    assert(t[idx as int] == profile_rows[idx - done.len()]);
                    assert(whole[done.len() + (idx - done.len())] == profile_rows[idx
                        - done.len()]);
                }
                assert(whole[idx as int].command == q@);
                assert(commands_of(whole)[idx as int] == q@);
                assert(commands_of(whole)[pos] == q@);
                assert(idx < pos);
                assert(has_duplicate_of(commands_of(whole), q@));
            }
            return Option::Some(q);
        }
        let ghost pre = *table;
        let ghost qv = q@;
        let entry = CommandEntry {
            command: q,
            namespace: namespace.clone(),
            subcommand: subcommands[j].clone(),
        };
        let ghost eg = entry;
        table.push(entry);
        proof {
            lemma_deep_view_push(pre, *table, eg);
            assert(eg@ == profile_rows[j as int]);
            assert(table.deep_view() =~= done + profile_rows.take(j as int + 1));
            let cmds = commands_of(table.deep_view());
            let pcmds = commands_of(pre.deep_view());
            assert forall|a: int, b: int| 0 <= a < b < cmds.len() implies cmds[a] != cmds[b] by {
                assert(table.deep_view() == pre.deep_view().push(eg@));
                if b == cmds.len() - 1 {
                    assert(table.deep_view()[a] == pre.deep_view()[a]);
                    assert(cmds[a] == pre.deep_view()[a].command);
                    assert(pre.deep_view()[a].command != qv);
                    assert(cmds[b] == qv);
                } else {
                    assert(table.deep_view()[a] == pre.deep_view()[a]);
                    assert(table.deep_view()[b] == pre.deep_view()[b]);
                    assert(cmds[a] == pcmds[a] && cmds[b] == pcmds[b]);
                }
            }
        }
        j = j + 1;
    }
    proof {
        assert(profile_rows.take(subcommands.deep_view().len() as int) =~= profile_rows);
    }
    Option::None
}

} // verus!
