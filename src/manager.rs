use crate::connection::ConnectionArgsTo;
use crate::error::{CrustError, ExitCode};
use crate::machine::{id_text, IdView, LocalMachine, MachineID, MachineType, RemoteMachine, opt_str_view, spec_removal};
use crate::text::{after_first, before_first, has_char, split_once_char};
use vstd::prelude::*;
use vstd::std_specs::cmp::PartialEqSpec;

verus! {

/// A machine of either kind, as the registry holds it.
pub enum Machine {
    Local(LocalMachine),
    Remote(RemoteMachine),
}

impl Machine {
    pub open spec fn spec_id(&self) -> IdView {
        match self {
            Machine::Local(m) => m.spec_id(),
            Machine::Remote(m) => m.spec_id(),
        }
    }

    pub fn get_id(&self) -> (r: &MachineID)
        ensures
            r@ == self.spec_id(),
    {
        match self {
            Machine::Local(m) => m.get_id(),
            Machine::Remote(m) => m.get_id(),
        }
    }

    pub open spec fn mtype_spec(&self) -> MachineType {
        match self {
            Machine::Local(_) => MachineType::LocalMachine,
            Machine::Remote(_) => MachineType::RemoteMachine,
        }
    }

    pub open spec fn spec_owner(&self) -> bool {
        match self {
            Machine::Local(m) => m.spec_owner(),
            Machine::Remote(m) => m.spec_owner(),
        }
    }

    pub open spec fn spec_tmpdir(&self) -> Option<Seq<char>> {
        match self {
            Machine::Local(m) => m.spec_tmpdir(),
            Machine::Remote(m) => m.spec_tmpdir(),
        }
    }

    /// The directory to delete when this machine goes away, if any.
    pub fn removal_target(&self) -> (r: Option<String>)
        ensures
            opt_str_view(r) == spec_removal(self.spec_owner(), self.spec_tmpdir()),
    {
        match self {
            Machine::Local(m) => m.removal_target(),
            Machine::Remote(m) => m.removal_target(),
        }
    }

    pub fn mtype(&self) -> (r: MachineType)
        ensures
            r == (match self {
                Machine::Local(_) => MachineType::LocalMachine,
                Machine::Remote(_) => MachineType::RemoteMachine,
            }),
    {
        match self {
            Machine::Local(m) => m.mtype(),
            Machine::Remote(m) => m.mtype(),
        }
    }
}

/// No two entries share an identity.
pub open spec fn ids_distinct(s: Seq<Machine>) -> bool {
    forall|i: int, j: int| 0 <= i < j < s.len() ==> s[i].spec_id() != s[j].spec_id()
}

/// Some entry has identity `id`.
pub open spec fn holds(s: Seq<Machine>, id: IdView) -> bool {
    exists|i: int| 0 <= i < s.len() && s[i].spec_id() == id
}

/// What get-or-create does to the entries: nothing where `id` is registered,
/// else it appends one machine with that identity.
pub open spec fn get_or_create_effect(before: Seq<Machine>, after: Seq<Machine>, id: IdView) -> bool {
    if holds(before, id) {
        after == before
    } else {
        after.len() == before.len() + 1 && after.drop_last() == before && after.last().spec_id() == id
    }
}

/// What removing `id` does to the entries: it drops the entry at the one
/// place that holds `id`.
pub open spec fn remove_effect(before: Seq<Machine>, after: Seq<Machine>, id: IdView) -> bool {
    exists|i: int| 0 <= i < before.len() && before[i].spec_id() == id && after == before.remove(i)
}

/// The registry: at most one live machine per identity, so that repeated
/// requests for the same machine reuse it.
pub struct MachinesManager {
    store: Vec<Machine>,
}

/// The message of a removal of an identity shown as `t` that is not
/// registered.
pub open spec fn missing_message(t: Seq<char>) -> Seq<char> {
    "MachinesManager does not contain Machine<"@ + t + ">"@
}

pub open spec fn unknown_alias_message(alias: Seq<char>) -> Seq<char> {
    "There is no registered machine with alias '"@ + alias + "'"@
}

proof fn lemma_remove_keeps(s: Seq<Machine>, i: int)
    requires
        ids_distinct(s),
        0 <= i < s.len(),
    ensures
        ids_distinct(s.remove(i)),
        !holds(s.remove(i), s[i].spec_id()),
        forall|other: IdView| other != s[i].spec_id() ==> (holds(s.remove(i), other) == holds(s, other)),
{
    let r = s.remove(i);
    assert forall|a: int, b: int| 0 <= a < b < r.len() implies r[a].spec_id() != r[b].spec_id() by {
        let a2 = if a < i { a } else { a + 1 };
        let b2 = if b < i { b } else { b + 1 };
        assert(r[a] == s[a2]);
        assert(r[b] == s[b2]);
    }
    if holds(r, s[i].spec_id()) {
        let k = choose|k: int| 0 <= k < r.len() && r[k].spec_id() == s[i].spec_id();
        let k2 = if k < i { k } else { k + 1 };
        assert(r[k] == s[k2]);
    }
    assert forall|other: IdView| other != s[i].spec_id() implies (holds(r, other) == holds(s, other)) by {
        if holds(r, other) {
            let k = choose|k: int| 0 <= k < r.len() && r[k].spec_id() == other;
            let k2 = if k < i { k } else { k + 1 };
            assert(r[k] == s[k2]);
        }
        if holds(s, other) {
            let k = choose|k: int| 0 <= k < s.len() && s[k].spec_id() == other;
            assert(k != i);
            let k2 = if k < i { k } else { k - 1 };
            assert(r[k2] == s[k]);
        }
    }
}

proof fn lemma_push_keeps(s: Seq<Machine>, m: Machine)
    requires
        ids_distinct(s),
        !holds(s, m.spec_id()),
    ensures
        ids_distinct(s.push(m)),
        holds(s.push(m), m.spec_id()),
        forall|other: IdView| other != m.spec_id() ==> (holds(s.push(m), other) == holds(s, other)),
{
    let p = s.push(m);
    assert(p[s.len() as int] == m);
    assert forall|a: int, b: int| 0 <= a < b < p.len() implies p[a].spec_id() != p[b].spec_id() by {
        if b == s.len() {
            assert(p[a] == s[a]);
        } else {
            assert(p[a] == s[a] && p[b] == s[b]);
        }
    }
    assert forall|other: IdView| other != m.spec_id() implies (holds(p, other) == holds(s, other)) by {
        if holds(p, other) {
            let k = choose|k: int| 0 <= k < p.len() && p[k].spec_id() == other;
            assert(p[k] == s[k]);
        }
        if holds(s, other) {
            let k = choose|k: int| 0 <= k < s.len() && s[k].spec_id() == other;
            assert(p[k] == s[k]);
        }
    }
}

impl MachinesManager {
    /// No two registered machines share an identity.
    pub open spec fn well_formed(&self) -> bool {
        ids_distinct(self.spec_entries())
    }

    /// The registered machines.
    pub closed spec fn spec_entries(&self) -> Seq<Machine> {
        self.store@
    }

    pub open spec fn contains(&self, id: IdView) -> bool {
        holds(self.spec_entries(), id)
    }

    pub fn new() -> (r: MachinesManager)
        ensures
            r.spec_entries() == Seq::<Machine>::empty(),
            r.well_formed(),
    {
        MachinesManager { store: Vec::new() }
    }

    /// How many machines are registered.
    pub fn size(&self) -> (r: usize)
        requires
            self.well_formed(),
        ensures
            r == self.spec_entries().len(),
    {
        self.store.len()
    }

    fn find(&self, id: &MachineID) -> (r: Option<usize>)
        ensures
            match r {
                Some(i) => i < self.spec_entries().len() && self.spec_entries()[i as int].spec_id() == id@,
                None => !self.contains(id@),
            },
    {
        let mut i: usize = 0;
        while i < self.store.len()
            invariant
                i <= self.store@.len(),
                forall|j: int| 0 <= j < i ==> self.store@[j].spec_id() != id@,
            decreases self.store@.len() - i,
        {
            if self.store[i].get_id().eq(id) {
                return Some(i);
            }
            i = i + 1;
        }
        None
    }

    /// Registers a machine under its identity. Where that identity is taken,
    /// the new machine is discarded and the registered one kept.
    pub fn add_machine(&mut self, machine: Machine) -> (r: MachineID)
        requires
            old(self).well_formed(),
        ensures
            r@ == machine.spec_id(),
            final(self).well_formed(),
            get_or_create_effect(old(self).spec_entries(), final(self).spec_entries(), machine.spec_id()),
            old(self).contains(machine.spec_id()) ==> final(self).spec_entries() == old(self).spec_entries(),
            !old(self).contains(machine.spec_id()) ==> final(self).spec_entries() == old(self).spec_entries().push(machine),
    {
        let id = machine.get_id().clone();
        match self.find(&id) {
            Some(_) => id,
            None => {
                proof {
                    lemma_push_keeps(self.store@, machine);
                    assert(self.store@.push(machine).drop_last() == self.store@);
                }
                self.store.push(machine);
                id
            },
        }
    }

    /// The machine registered under `id`.
    pub fn get_machine(&self, id: &MachineID) -> (r: Option<&Machine>)
        ensures
            match r {
                Some(m) => m.spec_id() == id@ && self.spec_entries().contains(*m),
                None => !self.contains(id@),
            },
    {
        match self.find(id) {
            Some(i) => Some(&self.store[i]),
            None => None,
        }
    }

    /// Unregisters `id` and hands its machine back, or fails where nothing is
    /// registered under it.
    pub fn remove_machine(&mut self, id: &MachineID) -> (r: Result<Machine, CrustError>)
        requires
            old(self).well_formed(),
        ensures
            old(self).contains(id@) <==> r.is_ok(),
            final(self).well_formed(),
            r matches Ok(m) ==> m.spec_id() == id@ && remove_effect(old(self).spec_entries(), final(self).spec_entries(), id@),
            r matches Ok(_) ==> !final(self).contains(id@),
            r matches Ok(_) ==> final(self).spec_entries().len() == old(self).spec_entries().len() - 1,
            r matches Ok(_) ==> forall|other: IdView| other != id@ ==> (final(self).contains(other) == old(self).contains(other)),
            r matches Err(e) ==> e.code == ExitCode::Internal
                && (exists|t: Seq<char>| id_text(id@, t) && e.message@ == missing_message(t))
                && final(self).spec_entries() == old(self).spec_entries(),
    {
        match self.find(id) {
            Some(i) => {
                proof {
                    lemma_remove_keeps(self.store@, i as int);
                }
                let m = self.store.remove(i);
                Ok(m)
            },
            None => {
                let text = id.to_text();
                let message = "MachinesManager does not contain Machine<".to_string().concat(text.as_str()).concat(">");
                assert(id_text(id@, text@) && message@ == missing_message(text@));
                Err(CrustError::new(ExitCode::Internal, message))
            },
        }
    }

    /// Registers a machine, replacing the one registered under the same
    /// identity, which is handed back.
    pub fn replace_machine(&mut self, machine: Machine) -> (r: Option<Machine>)
        requires
            old(self).well_formed(),
        ensures
            final(self).contains(machine.spec_id()),
            final(self).well_formed(),
            final(self).spec_entries().last() == machine,
            old(self).contains(machine.spec_id()) <==> r.is_some(),
            r matches Some(p) ==> p.spec_id() == machine.spec_id(),
            forall|other: IdView| other != machine.spec_id() ==> (final(self).contains(other) == old(self).contains(other)),
            final(self).spec_entries().len() == old(self).spec_entries().len() + (if r.is_some() { 0int } else { 1int }),
    {
        let id = machine.get_id().clone();
        let previous = match self.find(&id) {
            Some(i) => {
                proof {
                    lemma_remove_keeps(self.store@, i as int);
                }
                Some(self.store.remove(i))
            },
            None => None,
        };
        proof {
            lemma_push_keeps(self.store@, machine);
        }
        self.store.push(machine);
        previous
    }
}

impl Default for MachinesManager {
    fn default() -> (r: MachinesManager)
        ensures
            r.spec_entries() == Seq::<Machine>::empty(),
            r.well_formed(),
    {
        MachinesManager::new()
    }
}

impl LocalMachine {
    /// The local machine of the registry, registered now if it was not.
    pub fn get_or_create(manager: &mut MachinesManager) -> (r: MachineID)
        requires
            old(manager).well_formed(),
        ensures
            final(manager).well_formed(),
            r@ == IdView::Default(None, None, None),
            get_or_create_effect(old(manager).spec_entries(), final(manager).spec_entries(), r@),
            !old(manager).contains(r@) ==> (final(manager).spec_entries().last() matches Machine::Local(l)
                && l.spec_tmpdir() is None && l.spec_owner()),
    {
        let id = LocalMachine::generate_id();
        match manager.get_machine(&id) {
            Some(_) => id,
            None => manager.add_machine(Machine::Local(LocalMachine::new())),
        }
    }
}

impl RemoteMachine {
    /// The remote machine of these parameters (or of the alias, where one is
    /// given), registered now if it was not.
    pub fn get_or_create(
        user: &str,
        host: &str,
        password: Option<String>,
        pkey: Option<String>,
        port: u16,
        alias: Option<String>,
        manager: &mut MachinesManager,
    ) -> (r: MachineID)
        requires
            old(manager).well_formed(),
        ensures
            final(manager).well_formed(),
            r@ == (match alias {
                Some(a) => IdView::Custom(a@),
                None => IdView::Default(Some(user@), Some(host@), Some(port)),
            }),
            get_or_create_effect(old(manager).spec_entries(), final(manager).spec_entries(), r@),
            !old(manager).contains(r@) ==> (final(manager).spec_entries().last() matches Machine::Remote(m)
                && m.spec_tmpdir() is None && m.spec_owner()
                && m.spec_ssh().spec_target(user@, host@, opt_str_view(password), opt_str_view(pkey), port)
                && !m.spec_ssh().spec_connected()),
    {
        let id = match &alias {
            Some(a) => RemoteMachine::generate_custom_id(a.as_str()),
            None => RemoteMachine::generate_default_id(user, host, port),
        };
        match manager.get_machine(&id) {
            Some(_) => id,
            None => {
                let machine = match &alias {
                    Some(a) => RemoteMachine::with_alias(a.as_str(), user, host, password, pkey, port),
                    None => RemoteMachine::new(user, host, password, pkey, port),
                };
                manager.add_machine(Machine::Remote(machine))
            },
        }
    }

    /// The machine registered under an alias, if any.
    pub fn get(alias: &str, manager: &MachinesManager) -> (r: Option<MachineID>)
        ensures
            manager.contains(IdView::Custom(alias@)) <==> r.is_some(),
            r matches Some(id) ==> id@ == IdView::Custom(alias@),
    {
        let id = RemoteMachine::generate_custom_id(alias);
        match manager.get_machine(&id) {
            Some(_) => Some(id),
            None => None,
        }
    }
}

/// `m` is the machine that the options make: a remote machine for the user
/// and host of the address, with the options' credentials and port, not
/// connected yet, without a temporary directory and owning the one it will
/// make.
pub open spec fn made_from(args: ConnectionArgsTo, m: Machine) -> bool {
    m matches Machine::Remote(rm) && rm.spec_tmpdir() is None && rm.spec_owner()
        && !rm.spec_ssh().spec_connected() && rm.spec_ssh().spec_target(
        before_first(args.addr_to->Some_0@, '@'),
        after_first(args.addr_to->Some_0@, '@'),
        opt_str_view(args.password_to),
        opt_str_view(args.pkey_to),
        args.port_to->Some_0,
    )
}

/// `m` is a new local machine: no temporary directory yet, owning the one it
/// will make.
pub open spec fn fresh_local(m: Machine) -> bool {
    m matches Machine::Local(l) && l.spec_tmpdir() is None && l.spec_owner()
}

/// The options name a machine that can be made: an address with an `@` and
/// a port.
pub open spec fn target_ready(args: ConnectionArgsTo) -> bool {
    args.addr_to matches Some(a) && has_char(a@, '@') && args.port_to.is_some()
}

/// The options carry what a new connection needs: an address and a
/// password or a key.
pub open spec fn can_create(args: ConnectionArgsTo) -> bool {
    args.addr_to.is_some() && (args.password_to.is_some() || args.pkey_to.is_some())
}

/// The options can be looked up without failing on a missing address or port:
/// they are needed where there is no alias, and where a machine is made for
/// an unregistered alias.
pub open spec fn lookup_ready(args: ConnectionArgsTo) -> bool {
    &&& args.alias_to.is_none() ==> target_ready(args)
    &&& args.alias_to.is_some() && can_create(args) ==> target_ready(args)
}

/// Whether the options can be looked up (see [`lookup_ready`]).
pub fn lookup_ready_args(args: &ConnectionArgsTo) -> (r: bool)
    ensures
        r == lookup_ready(*args),
{
    let ready = match &args.addr_to {
        Some(a) => crate::text::find_char(a.as_str(), '@').is_some() && args.port_to.is_some(),
        None => false,
    };
    let can = args.addr_to.is_some() && (args.password_to.is_some() || args.pkey_to.is_some());
    if args.alias_to.is_none() {
        ready
    } else {
        !can || ready
    }
}

/// The identity the options resolve to, where they resolve.
pub open spec fn resolved_id(args: ConnectionArgsTo, entries: Seq<Machine>) -> Option<IdView> {
    match args.alias_to {
        None => Some(IdView::Default(
            Some(before_first(args.addr_to->Some_0@, '@')),
            Some(after_first(args.addr_to->Some_0@, '@')),
            args.port_to,
        )),
        Some(a) => if holds(entries, IdView::Custom(a@)) || can_create(args) {
            Some(IdView::Custom(a@))
        } else {
            None
        },
    }
}

/// Resolves the remote machine that the options name, reusing a registered
/// one. An alias alone must already be registered; with an address and
/// credentials beside it, a machine is registered under the alias.
pub fn get_or_create_remote_machine(args: &ConnectionArgsTo, manager: &mut MachinesManager) -> (r: Result<MachineID, CrustError>)
    requires
        lookup_ready(*args),
        old(manager).well_formed(),
    ensures
        final(manager).well_formed(),
        match resolved_id(*args, old(manager).spec_entries()) {
            Some(id) => r matches Ok(rid) && rid@ == id
                && get_or_create_effect(old(manager).spec_entries(), final(manager).spec_entries(), id)
                && (!holds(old(manager).spec_entries(), id) ==> made_from(*args, final(manager).spec_entries().last())),
            None => r matches Err(e) && e.code == ExitCode::Internal
                && e.message@ == unknown_alias_message(args.alias_to->Some_0@)
                && final(manager).spec_entries() == old(manager).spec_entries(),
        },
{
    match &args.alias_to {
        None => {
            let addr = args.addr_to.as_ref().unwrap();
            let (user, host) = split_once_char(addr.as_str(), '@').unwrap();
            Ok(RemoteMachine::get_or_create(
                user,
                host,
                crate::machine::opt_string_clone(&args.password_to),
                crate::machine::opt_string_clone(&args.pkey_to),
                args.port_to.unwrap(),
                None,
                manager,
            ))
        },
        Some(alias) => {
            match RemoteMachine::get(alias.as_str(), manager) {
                Some(id) => Ok(id),
                None => {
                    if args.addr_to.is_some() && (args.password_to.is_some() || args.pkey_to.is_some()) {
                        let addr = args.addr_to.as_ref().unwrap();
                        let (user, host) = split_once_char(addr.as_str(), '@').unwrap();
                        Ok(RemoteMachine::get_or_create(
                            user,
                            host,
                            crate::machine::opt_string_clone(&args.password_to),
                            crate::machine::opt_string_clone(&args.pkey_to),
                            args.port_to.unwrap(),
                            Some(alias.clone()),
                            manager,
                        ))
                    } else {
                        let message = "There is no registered machine with alias '".to_string().concat(
                            alias.as_str(),
                        ).concat("'");
                        Err(CrustError::new(ExitCode::Internal, message))
                    }
                },
            }
        },
    }
}

/// The machine of an operation's target: the local one where no remote
/// options are given.
pub fn resolve_machine(remote: &Option<ConnectionArgsTo>, manager: &mut MachinesManager) -> (r: Result<MachineID, CrustError>)
    requires
        *remote matches Some(args) ==> lookup_ready(args),
        old(manager).well_formed(),
    ensures
        final(manager).well_formed(),
        match remote {
            None => r matches Ok(id) && id@ == IdView::Default(None, None, None)
                && get_or_create_effect(old(manager).spec_entries(), final(manager).spec_entries(), id@)
                && (!holds(old(manager).spec_entries(), id@) ==> fresh_local(final(manager).spec_entries().last())),
            Some(args) => match resolved_id(*args, old(manager).spec_entries()) {
                Some(id) => r matches Ok(rid) && rid@ == id
                    && get_or_create_effect(old(manager).spec_entries(), final(manager).spec_entries(), id)
                    && (!holds(old(manager).spec_entries(), id) ==> made_from(*args, final(manager).spec_entries().last())),
                None => r matches Err(e) && e.code == ExitCode::Internal
                    && e.message@ == unknown_alias_message(args.alias_to->Some_0@)
                    && final(manager).spec_entries() == old(manager).spec_entries(),
            },
        },
{
    match remote {
        None => Ok(LocalMachine::get_or_create(manager)),
        Some(args) => get_or_create_remote_machine(args, manager),
    }
}

/// Get-or-create is idempotent: a second request for the same identity
/// changes nothing, and the registry then holds exactly one entry for it.
pub proof fn law_get_or_create_idempotent(s0: Seq<Machine>, s1: Seq<Machine>, s2: Seq<Machine>, id: IdView)
    requires
        ids_distinct(s0),
        get_or_create_effect(s0, s1, id),
        get_or_create_effect(s1, s2, id),
    ensures
        s2 == s1,
        ids_distinct(s2),
        exists|i: int| 0 <= i < s2.len() && s2[i].spec_id() == id
            && forall|j: int| 0 <= j < s2.len() && j != i ==> s2[j].spec_id() != id,
{
    if !holds(s0, id) {
        assert(s1 =~= s0.push(s1.last()));
        lemma_push_keeps(s0, s1.last());
    }
    assert(holds(s1, id));
    let i = choose|i: int| 0 <= i < s1.len() && s1[i].spec_id() == id;
    assert forall|j: int| 0 <= j < s2.len() && j != i implies s2[j].spec_id() != id by {
        if j < i {
            assert(s1[j].spec_id() != s1[i].spec_id());
        } else {
            assert(s1[i].spec_id() != s1[j].spec_id());
        }
    }
}

/// How many of the machines delete a directory when they go away.
pub open spec fn removal_count(ms: Seq<Machine>) -> nat
    decreases ms.len(),
{
    if ms.len() == 0 {
        0
    } else {
        removal_count(ms.drop_last()) + if spec_removal(ms.last().spec_owner(), ms.last().spec_tmpdir()) is Some {
            1nat
        } else {
            0nat
        }
    }
}

proof fn lemma_one_owner(ms: Seq<Machine>)
    requires
        ms.len() > 0,
        ms[0].spec_owner(),
        ms[0].spec_tmpdir() is Some,
        forall|i: int| 0 < i < ms.len() ==> !(#[trigger] ms[i]).spec_owner() && ms[i].spec_tmpdir() == ms[0].spec_tmpdir(),
    ensures
        removal_count(ms) == 1,
    decreases ms.len(),
{
    if ms.len() == 1 {
        assert(ms.drop_last().len() == 0);
        assert(removal_count(ms.drop_last()) == 0);
        assert(ms.last() == ms[0]);
    } else {
        let p = ms.drop_last();
        assert(p[0] == ms[0]);
        assert forall|i: int| 0 < i < p.len() implies !(#[trigger] p[i]).spec_owner() && p[i].spec_tmpdir() == p[0].spec_tmpdir() by {
            assert(p[i] == ms[i]);
        }
        lemma_one_owner(p);
        assert(ms.last() == ms[ms.len() - 1]);
        assert(!ms[ms.len() - 1].spec_owner());
    }
}

/// `c` is a clone of `m`: the same identity and temporary directory, without
/// the right to delete the directory.
pub open spec fn clone_of(c: Machine, m: Machine) -> bool {
    c.spec_id() == m.spec_id() && c.spec_tmpdir() == m.spec_tmpdir() && !c.spec_owner()
}

proof fn lemma_shares_directory(ms: Seq<Machine>, i: int)
    requires
        0 <= i < ms.len(),
        forall|k: int| 0 < k < ms.len() ==> exists|j: int| 0 <= j < k && clone_of(#[trigger] ms[k], ms[j]),
    ensures
        ms[i].spec_tmpdir() == ms[0].spec_tmpdir(),
    decreases i,
{
    if i > 0 {
        let j = choose|j: int| 0 <= j < i && clone_of(ms[i], ms[j]);
        lemma_shares_directory(ms, j);
    }
}

/// Clones never delete twice: take the owner of a temporary directory and
/// any number of clones, each made from the owner or from an earlier clone.
/// When all of them go away, in any order, exactly one deletes the directory.
pub proof fn law_clones_delete_once(ms: Seq<Machine>)
    requires
        ms.len() > 0,
        ms[0].spec_owner(),
        ms[0].spec_tmpdir() is Some,
        forall|k: int| 0 < k < ms.len() ==> exists|j: int| 0 <= j < k && clone_of(#[trigger] ms[k], ms[j]),
    ensures
        removal_count(ms) == 1,
{
    assert forall|i: int| 0 < i < ms.len() implies !(#[trigger] ms[i]).spec_owner() && ms[i].spec_tmpdir() == ms[0].spec_tmpdir() by {
        lemma_shares_directory(ms, i);
        let j = choose|j: int| 0 <= j < i && clone_of(ms[i], ms[j]);
    }
    lemma_one_owner(ms);
}

impl Clone for Machine {
    /// A copy of the same kind that shares the temporary directory but never
    /// deletes it.
    fn clone(&self) -> (r: Machine)
        ensures
            clone_of(r, *self),
            r.mtype_spec() == self.mtype_spec(),
    {
        match self {
            Machine::Local(m) => Machine::Local(m.clone()),
            Machine::Remote(m) => Machine::Remote(m.clone()),
        }
    }
}

/// Two identities made from the same user, host and port are equal, as
/// `==` on identities compares them.
pub proof fn law_default_ids_equal(a: MachineID, b: MachineID, user: Seq<char>, host: Seq<char>, port: u16)
    requires
        a@ == IdView::Default(Some(user), Some(host), Some(port)),
        b@ == IdView::Default(Some(user), Some(host), Some(port)),
    ensures
        a.eq_spec(&b),
        b.eq_spec(&a),
{
}

/// After a removal the identity is gone, and a removal of an absent identity
/// is refused.
pub proof fn law_remove_then_absent(before: Seq<Machine>, after: Seq<Machine>, id: IdView)
    requires
        ids_distinct(before),
        remove_effect(before, after, id),
    ensures
        holds(before, id),
        !holds(after, id),
        after.len() == before.len() - 1,
{
    let i = choose|i: int| 0 <= i < before.len() && before[i].spec_id() == id && after == before.remove(i);
    lemma_remove_keeps(before, i);
}

} // verus!
