//! The daemon's proxies and providers, and the tables the pages make of
//! them.

use crate::clash_api::name_map::NameMap;
use crate::page::widget::table_widget::{row_of, rows_of};
use crate::text::{decimal_text, push_signed_decimal, str_eq};
use vstd::prelude::*;
use vstd::string::StringExecFns;

verus! {

/// One delay probe of a proxy.
#[derive(Debug, Clone, PartialEq, Eq)]
pub struct HistoryItem {
    pub time: String,
    pub delay: i32,
}

/// One proxy: a plain node, or a group with members of which one may be
/// chosen.
#[derive(Debug, Clone, PartialEq, Eq)]
pub struct ProxyItem {
    pub name: String,
    /// The members, empty for a plain node.
    pub all: Vec<String>,
    /// The chosen member, empty if there is none.
    pub now: String,
    pub kind: String,
    /// The delay probes, oldest first.
    pub history: Vec<HistoryItem>,
}

/// A proxy as a provider lists it.
#[derive(Debug, Clone, PartialEq, Eq)]
pub struct ProviderProxy {
    pub name: String,
    pub history: Vec<HistoryItem>,
}

/// A named source of proxy definitions.
#[derive(Debug, Clone, PartialEq, Eq)]
pub struct ProviderItem {
    pub name: String,
    pub vehicle_type: String,
    pub now: String,
    pub proxies: Vec<ProviderProxy>,
}

/// The daemon's answer to a request for its proxies.
#[derive(Debug, PartialEq, Eq)]
pub struct Proxy {
    pub proxies: NameMap<ProxyItem>,
}

/// The daemon's answer to a request for its providers.
#[derive(Debug, PartialEq, Eq)]
pub struct Provider {
    pub providers: NameMap<ProviderItem>,
}

/// The proxies and providers of one fetch.
#[derive(Debug, PartialEq, Eq)]
pub struct ProxyData {
    pub proxies: NameMap<ProxyItem>,
    pub providers: NameMap<ProviderItem>,
}

/// Why a table could not be made from the daemon's data.
#[derive(Debug, Clone, PartialEq, Eq)]
pub enum ProxyError {
    /// A name that a chosen-member pointer or a request refers to has no
    /// proxy.
    Missing(String),
    /// A chain of chosen-member pointers is longer than the number of
    /// proxies, so it runs in a circle.
    TooDeep,
}

/// A failure with the name it speaks of as a character sequence.
pub enum Failure {
    Missing(Seq<char>),
    TooDeep,
}

impl View for ProxyError {
    type V = Failure;

    open spec fn view(&self) -> Failure {
        match self {
            ProxyError::Missing(name) => Failure::Missing(name@),
            ProxyError::TooDeep => Failure::TooDeep,
        }
    }
}

/// What the status line says of a failure.
pub open spec fn failure_text(failure: Failure) -> Seq<char> {
    match failure {
        Failure::Missing(name) => "代理不存在: "@ + name,
        Failure::TooDeep => "代理链过长"@,
    }
}

impl ProxyError {
    /// What the status line says of this failure.
    pub fn message(&self) -> (text: String)
        ensures
            text@ == failure_text(self@),
    {
        match self {
            ProxyError::Missing(name) => crate::text::join2("代理不存在: ", name.as_str()),
            ProxyError::TooDeep => String::from_str("代理链过长"),
        }
    }
}

/// A delay text or a failure.
pub enum Resolved {
    Text(Seq<char>),
    Failed(Failure),
}

/// What one name contributes to a table.
pub enum Entry {
    Row(Seq<Seq<char>>),
    Skipped,
    Failed(Failure),
}

/// A table or a failure.
pub enum Table {
    Rows(Seq<Seq<Seq<char>>>),
    Failed(Failure),
}

/// The name of the group from which every switchable group is reached.
pub open spec fn root_name() -> Seq<char> {
    "GLOBAL"@
}

/// The text for the latest delay probe: nothing without a probe, a dash for
/// a probe that did not answer, else the milliseconds.
pub open spec fn probe_text(history: Seq<HistoryItem>) -> Seq<char> {
    if history.len() == 0 {
        Seq::empty()
    } else if history.last().delay == 0 {
        "-"@
    } else {
        decimal_text(history.last().delay as int) + "ms"@
    }
}

/// The delay text of `item`: that of its latest probe if it has no chosen
/// member, else the delay text of the chosen member, followed for at most
/// `fuel` steps.
pub open spec fn resolve_delay(proxies: Map<Seq<char>, ProxyItem>, item: ProxyItem, fuel: nat)
    -> Resolved
    decreases fuel,
{
    if item.now@.len() == 0 {
        Resolved::Text(probe_text(item.history@))
    } else if fuel == 0 {
        Resolved::Failed(Failure::TooDeep)
    } else if !proxies.contains_key(item.now@) {
        Resolved::Failed(Failure::Missing(item.now@))
    } else {
        resolve_delay(proxies, proxies[item.now@], (fuel - 1) as nat)
    }
}

/// More steps never change an answer: once a chain of chosen members has
/// led to a delay or to a missing name, it leads there with every larger
/// number of steps.
pub proof fn lemma_more_steps_same_answer(
    proxies: Map<Seq<char>, ProxyItem>,
    item: ProxyItem,
    fewer: nat,
    more: nat,
)
    requires
        fewer <= more,
        resolve_delay(proxies, item, fewer) != Resolved::Failed(Failure::TooDeep),
    ensures
        resolve_delay(proxies, item, more) == resolve_delay(proxies, item, fewer),
    decreases fewer,
{
    if item.now@.len() > 0 && fewer > 0 && proxies.contains_key(item.now@) {
        lemma_more_steps_same_answer(
            proxies,
            proxies[item.now@],
            (fewer - 1) as nat,
            (more - 1) as nat,
        );
    }
}

/// A switchable group: a proxy with at least one member.
pub open spec fn is_group(proxies: Map<Seq<char>, ProxyItem>, name: Seq<char>) -> bool {
    proxies.contains_key(name) && proxies[name].all@.len() > 0
}

/// Those of `names` that are switchable groups, in order.
pub open spec fn groups_among(proxies: Map<Seq<char>, ProxyItem>, names: Seq<String>) -> Seq<
    Seq<char>,
>
    decreases names.len(),
{
    if names.len() == 0 {
        Seq::empty()
    } else {
        let rest = groups_among(proxies, names.drop_last());
        if is_group(proxies, names.last()@) {
            rest.push(names.last()@)
        } else {
            rest
        }
    }
}

/// The switchable groups of data that has the root: the members of the
/// root that are groups, in the root's order, and the root itself last.
pub open spec fn group_names(proxies: Map<Seq<char>, ProxyItem>) -> Seq<Seq<char>>
    recommends
        proxies.contains_key(root_name()),
{
    groups_among(proxies, proxies[root_name()].all@).push(root_name())
}

/// The switchable groups, or the failure to find the root: data without
/// the root has no groups to list, which is a failure and not an empty
/// list.
pub open spec fn group_list(proxies: Map<Seq<char>, ProxyItem>) -> Result<
    Seq<Seq<char>>,
    Failure,
> {
    if proxies.contains_key(root_name()) {
        Ok(group_names(proxies))
    } else {
        Err(Failure::Missing(root_name()))
    }
}

/// A provider that is listed: neither the default one nor a compatible one.
pub open spec fn is_listed(provider: ProviderItem) -> bool {
    provider.name@ != "default"@ && provider.vehicle_type@ != "Compatible"@
}

/// The names of the listed providers among the first `upto`, in order.
pub open spec fn listed_names(providers: Seq<ProviderItem>, upto: int) -> Seq<Seq<char>>
    decreases upto,
{
    if upto <= 0 {
        Seq::empty()
    } else {
        let rest = listed_names(providers, upto - 1);
        if is_listed(providers[upto - 1]) {
            rest.push(providers[upto - 1].name@)
        } else {
            rest
        }
    }
}

/// The mark in the row of a group's chosen member.
pub open spec fn chosen_mark() -> Seq<char> {
    "✓"@
}

/// The row of member `member` of `group`: its name, its delay and the mark
/// if it is the chosen one. A member without a proxy is skipped.
pub open spec fn member_entry(
    proxies: Map<Seq<char>, ProxyItem>,
    fuel: nat,
    group: ProxyItem,
    member: Seq<char>,
) -> Entry {
    if !proxies.contains_key(member) {
        Entry::Skipped
    } else {
        match resolve_delay(proxies, proxies[member], fuel) {
            Resolved::Text(delay) => Entry::Row(
                seq![
                    member,
                    delay,
                    if group.now@ == member {
                        chosen_mark()
                    } else {
                        Seq::empty()
                    },
                ],
            ),
            Resolved::Failed(failure) => Entry::Failed(failure),
        }
    }
}

/// The row of the group called `name`: the name it carries, its chosen
/// member, which may be none, and the delay that the chain of chosen
/// members leads to from the group. A group without a chosen member shows
/// its own latest probe.
pub open spec fn group_entry(proxies: Map<Seq<char>, ProxyItem>, fuel: nat, name: Seq<char>)
    -> Entry {
    let group = proxies[name];
    if !proxies.contains_key(name) {
        Entry::Failed(Failure::Missing(name))
    } else {
        match resolve_delay(proxies, group, fuel) {
            Resolved::Text(delay) => Entry::Row(seq![group.name@, group.now@, delay]),
            Resolved::Failed(failure) => Entry::Failed(failure),
        }
    }
}

/// The table of a list of entries: their rows in order, or the first
/// failure.
pub open spec fn collect(entries: Seq<Entry>) -> Table
    decreases entries.len(),
{
    if entries.len() == 0 {
        Table::Rows(Seq::empty())
    } else {
        match collect(entries.drop_last()) {
            Table::Failed(failure) => Table::Failed(failure),
            Table::Rows(rows) => match entries.last() {
                Entry::Row(row) => Table::Rows(rows.push(row)),
                Entry::Skipped => Table::Rows(rows),
                Entry::Failed(failure) => Table::Failed(failure),
            },
        }
    }
}

/// A failure among the first entries is the failure of the whole list.
pub proof fn lemma_collect_failure(entries: Seq<Entry>, upto: int)
    requires
        0 <= upto <= entries.len(),
        collect(entries.take(upto)) is Failed,
    ensures
        collect(entries) == collect(entries.take(upto)),
    decreases entries.len() - upto,
{
    if upto == entries.len() {
        assert(entries.take(upto) =~= entries);
    } else {
        assert(entries.take(upto + 1).drop_last() =~= entries.take(upto));
        lemma_collect_failure(entries, upto + 1);
    }
}

/// The entries of the members of `group`, in the group's order.
pub open spec fn member_entries(proxies: Map<Seq<char>, ProxyItem>, fuel: nat, group: ProxyItem)
    -> Seq<Entry> {
    Seq::new(group.all@.len(), |i: int| member_entry(proxies, fuel, group, group.all@[i]@))
}

/// The entries of the groups called `names`, in order.
pub open spec fn group_entries(proxies: Map<Seq<char>, ProxyItem>, fuel: nat, names: Seq<Seq<char>>)
    -> Seq<Entry> {
    Seq::new(names.len(), |i: int| group_entry(proxies, fuel, names[i]))
}

/// The table of the members of the group called `name`, or the failure to
/// find that group.
pub open spec fn member_table(proxies: Map<Seq<char>, ProxyItem>, fuel: nat, name: Seq<char>)
    -> Table {
    if proxies.contains_key(name) {
        collect(member_entries(proxies, fuel, proxies[name]))
    } else {
        Table::Failed(Failure::Missing(name))
    }
}

/// The table of the switchable groups, or the failure to find the root.
pub open spec fn group_table(proxies: Map<Seq<char>, ProxyItem>, fuel: nat) -> Table {
    match group_list(proxies) {
        Ok(names) => collect(group_entries(proxies, fuel, names)),
        Err(failure) => Table::Failed(failure),
    }
}

/// A list of names or a failure, as character sequences.
pub open spec fn list_of(r: Result<Vec<&str>, ProxyError>) -> Result<Seq<Seq<char>>, Failure> {
    match r {
        Ok(names) => Ok(names_of(names@)),
        Err(error) => Err(error@),
    }
}

/// A delay text or a failure, as character sequences.
pub open spec fn resolved_of(r: Result<String, ProxyError>) -> Resolved {
    match r {
        Ok(text) => Resolved::Text(text@),
        Err(error) => Resolved::Failed(error@),
    }
}

/// A table or a failure, as character sequences.
pub open spec fn table_of(r: Result<Vec<Vec<String>>, ProxyError>) -> Table {
    match r {
        Ok(rows) => Table::Rows(rows_of(rows)),
        Err(error) => Table::Failed(error@),
    }
}

/// The texts of a list of string slices.
pub open spec fn names_of(v: Seq<&str>) -> Seq<Seq<char>> {
    Seq::new(v.len(), |i: int| v[i]@)
}

impl ProxyItem {
    /// The text for the latest delay probe of this proxy.
    fn probe(&self) -> (text: String)
        ensures
            text@ == probe_text(self.history@),
    {
        if self.history.len() == 0 {
            String::new()
        } else {
            let delay: i32 = self.history[self.history.len() - 1].delay;
            if delay == 0 {
                String::from_str("-")
            } else {
                let mut text = String::new();
                push_signed_decimal(&mut text, delay as i64);
                text.append("ms");
                text
            }
        }
    }

    /// The delay shown for this proxy: that of the node its chosen-member
    /// pointers lead to. A chain that leaves the mapping or is longer than
    /// the number of proxies is a failure.
    pub fn get_delay(&self, proxies: &NameMap<ProxyItem>) -> (r: Result<String, ProxyError>)
        requires
            proxies.wf(),
        ensures
            resolved_of(r) == resolve_delay(proxies@, *self, proxies.keys().len()),
    {
        let mut current: &ProxyItem = self;
        let mut fuel: usize = proxies.len();
        loop
            invariant
                proxies.wf(),
                fuel <= proxies.keys().len(),
                resolve_delay(proxies@, *self, proxies.keys().len()) == resolve_delay(
                    proxies@,
                    *current,
                    fuel as nat,
                ),
            decreases fuel,
        {
            if current.now.as_str().is_empty() {
                return Ok(current.probe());
            }
            if fuel == 0 {
                return Err(ProxyError::TooDeep);
            }
            match proxies.get(current.now.as_str()) {
                None => {
                    return Err(ProxyError::Missing(current.now.clone()));
                },
                Some(next) => {
                    current = next;
                    fuel -= 1;
                },
            }
        }
    }
}

impl ProxyData {
    /// Both mappings are well formed.
    pub open spec fn wf(&self) -> bool {
        self.proxies.wf() && self.providers.wf()
    }

    /// The switchable groups: the members of the root that have members of
    /// their own, in the root's order, and the root itself last. Data
    /// without the root is a failure.
    pub fn get_groups(&self) -> (r: Result<Vec<&str>, ProxyError>)
        requires
            self.wf(),
        ensures
            list_of(r) == group_list(self.proxies@),
    {
        let root: &ProxyItem = match self.proxies.get("GLOBAL") {
            None => {
                return Err(ProxyError::Missing(String::from_str("GLOBAL")));
            },
            Some(root) => root,
        };
        let mut groups: Vec<&str> = Vec::new();
        let mut i: usize = 0;
        proof {
            assert(names_of(groups@) =~= groups_among(self.proxies@, root.all@.take(0)));
        }
        while i < root.all.len()
            invariant
                i <= root.all.len(),
                self.wf(),
                names_of(groups@) == groups_among(self.proxies@, root.all@.take(i as int)),
            decreases root.all.len() - i,
        {
            let name: &str = root.all[i].as_str();
            let ghost before = groups@;
            let listed: bool = match self.proxies.get(name) {
                Some(item) => item.all.len() > 0,
                None => false,
            };
            if listed {
                groups.push(name);
                proof {
                    assert(names_of(groups@) =~= names_of(before).push(name@));
                }
            }
            proof {
                assert(root.all@.take(i + 1).drop_last() =~= root.all@.take(i as int));
            }
            i += 1;
        }
        let ghost before = groups@;
        groups.push("GLOBAL");
        proof {
            assert(root.all@.take(root.all@.len() as int) =~= root.all@);
            assert(names_of(groups@) =~= names_of(before).push(root_name()));
        }
        Ok(groups)
    }

    /// The names of the providers that are neither the default one nor
    /// compatible ones, in the order of the mapping.
    pub fn get_proxy_providers(&self) -> (names: Vec<&str>)
        requires
            self.wf(),
        ensures
            names_of(names@) == listed_names(
                self.providers.values(),
                self.providers.values().len() as int,
            ),
    {
        let mut names: Vec<&str> = Vec::new();
        let mut i: usize = 0;
        while i < self.providers.len()
            invariant
                i <= self.providers.keys().len(),
                self.wf(),
                names_of(names@) == listed_names(self.providers.values(), i as int),
            decreases self.providers.keys().len() - i,
        {
            let provider: &ProviderItem = self.providers.value_at(i);
            if !str_eq(provider.name.as_str(), "default") && !str_eq(
                provider.vehicle_type.as_str(),
                "Compatible",
            ) {
                names.push(provider.name.as_str());
            }
            i += 1;
        }
        names
    }

    /// The rows for the members of the group called `name`: member, delay,
    /// and a mark on the chosen member. A member without a proxy gets no
    /// row. A missing group, or a delay that cannot be resolved, is a
    /// failure.
    pub fn to_group_items(&self, name: &str) -> (r: Result<Vec<Vec<String>>, ProxyError>)
        requires
            self.wf(),
        ensures
            table_of(r) == member_table(self.proxies@, self.proxies.keys().len(), name@),
    {
        let group: &ProxyItem = match self.proxies.get(name) {
            None => {
                return Err(ProxyError::Missing(String::from_str(name)));
            },
            Some(group) => group,
        };
        let ghost entries = member_entries(self.proxies@, self.proxies.keys().len(), *group);
        let mut rows: Vec<Vec<String>> = Vec::new();
        let mut i: usize = 0;
        proof {
            assert(rows_of(rows) =~= Seq::<Seq<Seq<char>>>::empty());
        }
        while i < group.all.len()
            invariant
                i <= group.all.len(),
                self.wf(),
                self.proxies@.contains_key(name@),
                self.proxies@[name@] == *group,
                entries == member_entries(self.proxies@, self.proxies.keys().len(), *group),
                collect(entries.take(i as int)) == Table::Rows(rows_of(rows)),
            decreases group.all.len() - i,
        {
            let member: &String = &group.all[i];
            let ghost before = rows;
            proof {
                assert(entries.take(i + 1).drop_last() =~= entries.take(i as int));
            }
            match self.proxies.get(member.as_str()) {
                None => {},
                Some(item) => {
                    match item.get_delay(&self.proxies) {
                        Err(error) => {
                            proof {
                                lemma_collect_failure(entries, i + 1);
                            }
                            return Err(error);
                        },
                        Ok(delay) => {
                            let mark: String = if str_eq(group.now.as_str(), member.as_str()) {
                                String::from_str("✓")
                            } else {
                                String::new()
                            };
                            let mut row: Vec<String> = Vec::new();
                            row.push(member.clone());
                            row.push(delay);
                            row.push(mark);
                            rows.push(row);
                            proof {
                                assert(row_of(row) =~= entries[i as int]->Row_0);
                                assert(rows_of(rows) =~= rows_of(before).push(row_of(row)));
                            }
                        },
                    }
                },
            }
            i += 1;
        }
        proof {
            assert(entries.take(entries.len() as int) =~= entries);
        }
        Ok(rows)
    }

    /// The rows for the switchable groups: the group's name, its chosen
    /// member and the delay that its chain of chosen members leads to. Data
    /// without the root, or a delay that cannot be resolved, is a failure.
    pub fn to_groups(&self) -> (r: Result<Vec<Vec<String>>, ProxyError>)
        requires
            self.wf(),
        ensures
            table_of(r) == group_table(self.proxies@, self.proxies.keys().len()),
    {
        let groups: Vec<&str> = match self.get_groups() {
            Ok(groups) => groups,
            Err(error) => {
                return Err(error);
            },
        };
        let ghost entries = group_entries(
            self.proxies@,
            self.proxies.keys().len(),
            group_names(self.proxies@),
        );
        let mut rows: Vec<Vec<String>> = Vec::new();
        let mut i: usize = 0;
        proof {
            assert(rows_of(rows) =~= Seq::<Seq<Seq<char>>>::empty());
        }
        while i < groups.len()
            invariant
                i <= groups.len(),
                self.wf(),
                self.proxies@.contains_key(root_name()),
                names_of(groups@) == group_names(self.proxies@),
                entries == group_entries(
                    self.proxies@,
                    self.proxies.keys().len(),
                    group_names(self.proxies@),
                ),
                collect(entries.take(i as int)) == Table::Rows(rows_of(rows)),
            decreases groups.len() - i,
        {
            let ghost before = rows;
            proof {
                assert(entries.take(i + 1).drop_last() =~= entries.take(i as int));
            }
            let group: &ProxyItem = match self.proxies.get(groups[i]) {
                None => {
                    proof {
                        lemma_collect_failure(entries, i + 1);
                    }
                    return Err(ProxyError::Missing(String::from_str(groups[i])));
                },
                Some(group) => group,
            };
            match group.get_delay(&self.proxies) {
                Err(error) => {
                    proof {
                        lemma_collect_failure(entries, i + 1);
                    }
                    return Err(error);
                },
                Ok(delay) => {
                    let mut row: Vec<String> = Vec::new();
                    row.push(group.name.clone());
                    row.push(group.now.clone());
                    row.push(delay);
                    rows.push(row);
                    proof {
                        assert(row_of(row) =~= entries[i as int]->Row_0);
                        assert(rows_of(rows) =~= rows_of(before).push(row_of(row)));
                    }
                },
            }
            i += 1;
        }
        proof {
            assert(entries.take(entries.len() as int) =~= entries);
        }
        Ok(rows)
    }
}

} // verus!
