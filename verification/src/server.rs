//! The rendezvous server as a state machine: for each project the operation
//! under way, the count of participants that signed up for it, and the
//! mailbox through which they talk.

use crate::assoc::{
    absent, assoc, find_last, last_at, lemma_assoc_absent, lemma_assoc_found, lemma_assoc_push,
    lemma_assoc_update,
};
use crate::comm::{Entry, Index, PartySignup};
use crate::text::texts;
use crate::utils::{Operation, OperationView};
use vstd::prelude::*;
use vstd::string::*;

verus! {

/// What the server holds of one project.
pub struct ProjectView {
    pub operation: OperationView,
    pub participants: nat,
    pub mailbox: Map<Seq<char>, Seq<char>>,
}

/// A project of which the server has heard nothing yet: idle, nobody signed
/// up, the mailbox empty.
pub open spec fn fresh_project() -> ProjectView {
    ProjectView { operation: OperationView::Idle, participants: 0, mailbox: Map::empty() }
}

/// The project after a request to start `op`: an idle project takes up `op`,
/// a project with an operation under way is left as it is.
pub open spec fn started(p: ProjectView, op: OperationView) -> ProjectView {
    if p.operation is Idle {
        ProjectView { operation: op, ..p }
    } else {
        p
    }
}

/// The project after the end of its operation: idle, nobody signed up, the
/// mailbox empty.
pub open spec fn ended(p: ProjectView) -> ProjectView {
    fresh_project()
}

/// The project after its mailbox and its count of participants were reset:
/// the operation stays.
pub open spec fn cleared(p: ProjectView) -> ProjectView {
    ProjectView { operation: p.operation, participants: 0, mailbox: Map::empty() }
}

/// How many participants the operation takes: all `n` for a key
/// generation, `t + 1` for a signature, none where nothing can be signed up
/// for.
pub open spec fn quota(op: OperationView) -> nat {
    match op {
        OperationView::KeyGen { participants, .. } => participants as nat,
        OperationView::SignTag { threshold, .. } => threshold as nat + 1,
        OperationView::SignKey { threshold, .. } => threshold as nat + 1,
        _ => 0,
    }
}

/// Whether a sign-up for a key generation is accepted.
pub open spec fn keygen_open(p: ProjectView) -> bool {
    p.operation is KeyGen && p.participants < quota(p.operation)
}

/// Whether a sign-up for a signature is accepted.
pub open spec fn sign_open(p: ProjectView) -> bool {
    (p.operation is SignTag || p.operation is SignKey) && p.participants < quota(p.operation)
}

/// The project with one participant more.
pub open spec fn joined(p: ProjectView) -> ProjectView {
    ProjectView { participants: p.participants + 1, ..p }
}

/// The project after `k` requests to sign up for a key generation.
pub open spec fn after_keygen_signups(p: ProjectView, k: nat) -> ProjectView
    decreases k,
{
    if k == 0 {
        p
    } else {
        let q = after_keygen_signups(p, (k - 1) as nat);
        if keygen_open(q) {
            joined(q)
        } else {
            q
        }
    }
}

/// The project after `k` requests to sign up for a signature.
pub open spec fn after_sign_signups(p: ProjectView, k: nat) -> ProjectView
    decreases k,
{
    if k == 0 {
        p
    } else {
        let q = after_sign_signups(p, (k - 1) as nat);
        if sign_open(q) {
            joined(q)
        } else {
            q
        }
    }
}

/// Of any number of requests to sign up for a key generation of `n`
/// participants the server accepts the first `n` and no more: after `k`
/// requests `min(k, n)` participants are signed up, and the next request is
/// accepted exactly when `k < n`.
pub proof fn lemma_keygen_signups(p: ProjectView, k: nat)
    requires
        p.operation is KeyGen,
        p.participants == 0,
    ensures
        after_keygen_signups(p, k).participants == if k <= quota(p.operation) {
            k
        } else {
            quota(p.operation)
        },
        after_keygen_signups(p, k).operation == p.operation,
        keygen_open(after_keygen_signups(p, k)) <==> k < quota(p.operation),
    decreases k,
{
    if k > 0 {
        lemma_keygen_signups(p, (k - 1) as nat);
    }
}

/// Of any number of requests to sign up for a signature with threshold `t`
/// the server accepts the first `t + 1` and no more.
pub proof fn lemma_sign_signups(p: ProjectView, k: nat)
    requires
        p.operation is SignTag || p.operation is SignKey,
        p.participants == 0,
    ensures
        after_sign_signups(p, k).participants == if k <= quota(p.operation) {
            k
        } else {
            quota(p.operation)
        },
        after_sign_signups(p, k).operation == p.operation,
        sign_open(after_sign_signups(p, k)) <==> k < quota(p.operation),
    decreases k,
{
    if k > 0 {
        lemma_sign_signups(p, (k - 1) as nat);
    }
}

/// A project has at most one operation under way: of two requests to start
/// an operation the first is kept, whatever the second asks for, and the
/// end of the operation makes the project idle again.
pub proof fn lemma_start_keeps_first(p: ProjectView, first: OperationView, second: OperationView)
    requires
        p.operation is Idle,
        !(first is Idle),
    ensures
        started(started(p, first), second).operation == first,
        ended(started(started(p, first), second)).operation is Idle,
        ended(started(started(p, first), second)).participants == 0,
        ended(started(started(p, first), second)).mailbox == Map::<Seq<char>, Seq<char>>::empty(),
{
}

/// What the server holds of one project.
pub struct Project {
    operation: Operation,
    participants: usize,
    keys: Vec<String>,
    values: Vec<String>,
}

impl View for Project {
    type V = ProjectView;

    closed spec fn view(&self) -> ProjectView {
        ProjectView {
            operation: self.operation@,
            participants: self.participants as nat,
            mailbox: assoc(texts(self.keys@), texts(self.values@)),
        }
    }
}

impl Project {
    /// Whether the two runs of the mailbox have one length.
    pub closed spec fn wf(&self) -> bool {
        self.keys@.len() == self.values@.len()
    }

    /// A project of which the server has heard nothing yet.
    pub fn new() -> (p: Project)
        ensures
            p@ == fresh_project(),
            p.wf(),
    {
        let p = Project {
            operation: Operation::Idle,
            participants: 0,
            keys: Vec::new(),
            values: Vec::new(),
        };
        proof {
            assert(texts(p.keys@) =~= Seq::<Seq<char>>::empty());
        }
        p
    }

    /// Takes up `op` unless an operation is under way.
    pub fn start_operation(&mut self, op: Operation)
        requires
            old(self).wf(),
        ensures
            final(self)@ == started(old(self)@, op@),
            final(self).wf(),
    {
        if self.operation.is_idle() {
            self.operation = op;
        }
    }

    /// The operation under way.
    pub fn get_operation(&self) -> (op: Operation)
        ensures
            op@ == self@.operation,
    {
        self.operation.duplicate()
    }

    /// Ends the operation: the project is idle, nobody is signed up and the
    /// mailbox is empty.
    pub fn end_operation(&mut self)
        ensures
            final(self)@ == ended(old(self)@),
            final(self).wf(),
    {
        self.operation = Operation::Idle;
        self.participants = 0;
        self.keys.clear();
        self.values.clear();
        proof {
            assert(texts(self.keys@) =~= Seq::<Seq<char>>::empty());
        }
    }

    /// Resets the mailbox and the count of participants; the operation
    /// stays.
    pub fn clear(&mut self)
        ensures
            final(self)@ == cleared(old(self)@),
            final(self).wf(),
    {
        self.participants = 0;
        self.keys.clear();
        self.values.clear();
        proof {
            assert(texts(self.keys@) =~= Seq::<Seq<char>>::empty());
        }
    }

    /// Signs one participant up for the key generation under way and gives
    /// it its index, counted from one. Refuses where no key generation is
    /// under way or all its participants are signed up.
    pub fn signup_keygen(&mut self) -> (res: Result<PartySignup, ()>)
        requires
            old(self).wf(),
        ensures
            final(self).wf(),
            keygen_open(old(self)@) ==> final(self)@ == joined(old(self)@) && res == Ok::<
                PartySignup,
                (),
            >(PartySignup { number: (old(self)@.participants + 1) as u16 }),
            !keygen_open(old(self)@) ==> final(self)@ == old(self)@ && res is Err,
    {
        let parties: usize = match &self.operation {
            Operation::KeyGen { participants, .. } => *participants as usize,
            _ => {
                return Err(());
            },
        };
        if self.participants < parties {
            self.participants = self.participants + 1;
            Ok(PartySignup { number: self.participants as u16 })
        } else {
            Err(())
        }
    }

    /// Signs one participant up for the signature under way and gives it its
    /// index, counted from one. Refuses where no signature is under way or
    /// `t + 1` participants are signed up.
    pub fn signup_sign(&mut self) -> (res: Result<PartySignup, ()>)
        requires
            old(self).wf(),
        ensures
            final(self).wf(),
            sign_open(old(self)@) ==> final(self)@ == joined(old(self)@) && res == Ok::<
                PartySignup,
                (),
            >(PartySignup { number: (old(self)@.participants + 1) as u16 }),
            !sign_open(old(self)@) ==> final(self)@ == old(self)@ && res is Err,
    {
        let threshold: usize = match &self.operation {
            Operation::SignTag { threshold, .. } => *threshold as usize,
            Operation::SignKey { threshold, .. } => *threshold as usize,
            _ => {
                return Err(());
            },
        };
        if self.participants < threshold + 1 {
            self.participants = self.participants + 1;
            Ok(PartySignup { number: self.participants as u16 })
        } else {
            Err(())
        }
    }

    /// Reads the mailbox entry under the key of `index`.
    pub fn get(&self, index: &Index) -> (res: Result<Entry, ()>)
        requires
            self.wf(),
        ensures
            match res {
                Ok(entry) => self@.mailbox.contains_key(index.key@) && entry.key@ == index.key@
                    && entry.value@ == self@.mailbox[index.key@],
                Err(_) => !self@.mailbox.contains_key(index.key@),
            },
    {
        match find_last(&self.keys, &index.key) {
            Some(i) => {
                proof {
                    lemma_assoc_found(texts(self.keys@), texts(self.values@), index.key@, i as int);
                }
                Ok(Entry { key: index.key.clone(), value: self.values[i].clone() })
            },
            None => {
                proof {
                    lemma_assoc_absent(texts(self.keys@), texts(self.values@), index.key@);
                }
                Err(())
            },
        }
    }

    /// Writes `entry` to the mailbox; an entry under the same key is
    /// overwritten.
    pub fn set(&mut self, entry: Entry)
        requires
            old(self).wf(),
        ensures
            final(self)@ == (ProjectView {
                mailbox: old(self)@.mailbox.insert(entry.key@, entry.value@),
                ..old(self)@
            }),
            final(self).wf(),
    {
        let ghost keys = texts(self.keys@);
        let ghost values = texts(self.values@);
        match find_last(&self.keys, &entry.key) {
            Some(i) => {
                proof {
                    lemma_assoc_update(keys, values, entry.key@, i as int, entry.value@);
                }
                self.values[i] = entry.value;
                proof {
                    assert(texts(self.values@) =~= values.update(i as int, entry.value@));
                }
            },
            None => {
                proof {
                    lemma_assoc_push(keys, values, entry.key@, entry.value@);
                }
                self.keys.push(entry.key);
                self.values.push(entry.value);
                proof {
                    assert(texts(self.keys@) =~= keys.push(entry.key@));
                    assert(texts(self.values@) =~= values.push(entry.value@));
                }
            },
        }
    }
}

/// The server: its projects by name.
pub struct Server {
    names: Vec<String>,
    projects: Vec<Project>,
}

/// The views of a run of projects.
pub open spec fn project_views(projects: Seq<Project>) -> Seq<ProjectView> {
    projects.map_values(|p: Project| p@)
}

/// What the server holds of the project `name`: a project that it has not
/// heard of is fresh.
pub open spec fn project_of(table: Map<Seq<char>, ProjectView>, name: Seq<char>) -> ProjectView {
    if table.contains_key(name) {
        table[name]
    } else {
        fresh_project()
    }
}

impl View for Server {
    type V = Map<Seq<char>, ProjectView>;

    closed spec fn view(&self) -> Map<Seq<char>, ProjectView> {
        assoc(texts(self.names@), project_views(self.projects@))
    }
}

impl Server {
    /// Whether each name has its project and each project is well formed.
    pub closed spec fn wf(&self) -> bool {
        &&& self.names@.len() == self.projects@.len()
        &&& forall|i: int| 0 <= i < self.projects@.len() ==> (#[trigger] self.projects@[i]).wf()
    }

    /// A server without projects.
    pub fn new() -> (s: Server)
        ensures
            s@ == Map::<Seq<char>, ProjectView>::empty(),
            s.wf(),
    {
        let s = Server { names: Vec::new(), projects: Vec::new() };
        proof {
            assert(texts(s.names@) =~= Seq::<Seq<char>>::empty());
        }
        s
    }

    /// Where the project `name` stands, made fresh first where the server
    /// has not heard of it. What the server holds of any project stays as it
    /// was.
    fn slot(&mut self, name: &String) -> (i: usize)
        requires
            old(self).wf(),
        ensures
            final(self).wf(),
            last_at(texts(final(self).names@), name@, i as int),
            project_views(final(self).projects@)[i as int] == project_of(old(self)@, name@),
            final(self)@ == old(self)@.insert(name@, project_of(old(self)@, name@)),
    {
        let ghost names = texts(self.names@);
        let ghost views = project_views(self.projects@);
        match find_last(&self.names, name) {
            Some(i) => {
                proof {
                    lemma_assoc_found(names, views, name@, i as int);
                    assert(self@ =~= old(self)@.insert(name@, project_of(old(self)@, name@)));
                }
                i
            },
            None => {
                proof {
                    lemma_assoc_absent(names, views, name@);
                    lemma_assoc_push(names, views, name@, fresh_project());
                }
                self.names.push(name.clone());
                self.projects.push(Project::new());
                proof {
                    assert(texts(self.names@) =~= names.push(name@));
                    assert(project_views(self.projects@) =~= views.push(fresh_project()));
                }
                self.names.len() - 1
            },
        }
    }

    /// `POST /start-operation`: the project `name` takes up `op` unless an
    /// operation is under way.
    pub fn start_operation(&mut self, name: &String, op: Operation)
        requires
            old(self).wf(),
        ensures
            final(self).wf(),
            final(self)@ == old(self)@.insert(name@, started(project_of(old(self)@, name@), op@)),
    {
        let ghost before = self@;
        let i = self.slot(name);
        let ghost middle = self@;
        let ghost names = texts(self.names@);
        let ghost views = project_views(self.projects@);
        proof {
            lemma_assoc_update(names, views, name@, i as int, started(views[i as int], op@));
        }
        self.projects[i].start_operation(op);
        proof {
            assert(project_views(self.projects@) =~= views.update(
                i as int,
                started(views[i as int], op@),
            ));
            assert(self@ =~= before.insert(name@, project_views(self.projects@)[i as int]));
        }
    }

    /// `POST /get-operation`: the operation of the project `name`.
    pub fn get_operation(&self, name: &String) -> (op: Operation)
        requires
            self.wf(),
        ensures
            op@ == project_of(self@, name@).operation,
    {
        match find_last(&self.names, name) {
            Some(i) => {
                proof {
                    lemma_assoc_found(
                        texts(self.names@),
                        project_views(self.projects@),
                        name@,
                        i as int,
                    );
                }
                self.projects[i].get_operation()
            },
            None => {
                proof {
                    lemma_assoc_absent(texts(self.names@), project_views(self.projects@), name@);
                }
                Operation::Idle
            },
        }
    }

    /// `POST /end-operation`: the project `name` is idle, nobody is signed
    /// up and its mailbox is empty.
    pub fn end_operation(&mut self, name: &String)
        requires
            old(self).wf(),
        ensures
            final(self).wf(),
            final(self)@ == old(self)@.insert(name@, fresh_project()),
    {
        let ghost before = self@;
        let i = self.slot(name);
        let ghost middle = self@;
        let ghost names = texts(self.names@);
        let ghost views = project_views(self.projects@);
        proof {
            lemma_assoc_update(names, views, name@, i as int, fresh_project());
        }
        self.projects[i].end_operation();
        proof {
            assert(project_views(self.projects@) =~= views.update(i as int, fresh_project()));
            assert(self@ =~= before.insert(name@, project_views(self.projects@)[i as int]));
        }
    }

    /// `POST /clear`: resets the mailbox and the count of participants of the
    /// project `name`.
    pub fn clear(&mut self, name: &String)
        requires
            old(self).wf(),
        ensures
            final(self).wf(),
            final(self)@ == old(self)@.insert(name@, cleared(project_of(old(self)@, name@))),
    {
        let ghost before = self@;
        let i = self.slot(name);
        let ghost names = texts(self.names@);
        let ghost views = project_views(self.projects@);
        proof {
            lemma_assoc_update(names, views, name@, i as int, cleared(views[i as int]));
        }
        self.projects[i].clear();
        proof {
            assert(project_views(self.projects@) =~= views.update(
                i as int,
                cleared(views[i as int]),
            ));
            assert(self@ =~= before.insert(name@, cleared(project_of(before, name@))));
        }
    }

    /// `POST /signupkeygen`: signs one participant up for the key generation
    /// of the project `name`.
    pub fn signup_keygen(&mut self, name: &String) -> (res: Result<PartySignup, ()>)
        requires
            old(self).wf(),
        ensures
            final(self).wf(),
            keygen_open(project_of(old(self)@, name@)) ==> res == Ok::<PartySignup, ()>(
                PartySignup { number: (project_of(old(self)@, name@).participants + 1) as u16 },
            ) && final(self)@ == old(self)@.insert(name@, joined(project_of(old(self)@, name@))),
            !keygen_open(project_of(old(self)@, name@)) ==> res is Err && final(self)@ == old(
                self,
            )@.insert(name@, project_of(old(self)@, name@)),
    {
        let ghost before = self@;
        let i = self.slot(name);
        let ghost middle = self@;
        let ghost names = texts(self.names@);
        let ghost views = project_views(self.projects@);
        let res = self.projects[i].signup_keygen();
        proof {
            let now = project_views(self.projects@)[i as int];
            lemma_assoc_update(names, views, name@, i as int, now);
            assert(project_views(self.projects@) =~= views.update(i as int, now));
            assert(self@ =~= before.insert(name@, project_views(self.projects@)[i as int]));
        }
        res
    }

    /// `POST /signupsign`: signs one participant up for the signature of the
    /// project `name`.
    pub fn signup_sign(&mut self, name: &String) -> (res: Result<PartySignup, ()>)
        requires
            old(self).wf(),
        ensures
            final(self).wf(),
            sign_open(project_of(old(self)@, name@)) ==> res == Ok::<PartySignup, ()>(
                PartySignup { number: (project_of(old(self)@, name@).participants + 1) as u16 },
            ) && final(self)@ == old(self)@.insert(name@, joined(project_of(old(self)@, name@))),
            !sign_open(project_of(old(self)@, name@)) ==> res is Err && final(self)@ == old(
                self,
            )@.insert(name@, project_of(old(self)@, name@)),
    {
        let ghost before = self@;
        let i = self.slot(name);
        let ghost middle = self@;
        let ghost names = texts(self.names@);
        let ghost views = project_views(self.projects@);
        let res = self.projects[i].signup_sign();
        proof {
            let now = project_views(self.projects@)[i as int];
            lemma_assoc_update(names, views, name@, i as int, now);
            assert(project_views(self.projects@) =~= views.update(i as int, now));
            assert(self@ =~= before.insert(name@, project_views(self.projects@)[i as int]));
        }
        res
    }

    /// `POST /get`: reads the mailbox of the project `name`.
    pub fn get(&self, name: &String, index: &Index) -> (res: Result<Entry, ()>)
        requires
            self.wf(),
        ensures
            match res {
                Ok(entry) => project_of(self@, name@).mailbox.contains_key(index.key@)
                    && entry.key@ == index.key@ && entry.value@ == project_of(
                    self@,
                    name@,
                ).mailbox[index.key@],
                Err(_) => !project_of(self@, name@).mailbox.contains_key(index.key@),
            },
    {
        match find_last(&self.names, name) {
            Some(i) => {
                proof {
                    lemma_assoc_found(
                        texts(self.names@),
                        project_views(self.projects@),
                        name@,
                        i as int,
                    );
                }
                self.projects[i].get(index)
            },
            None => {
                proof {
                    lemma_assoc_absent(texts(self.names@), project_views(self.projects@), name@);
                }
                Err(())
            },
        }
    }

    /// `POST /set`: writes to the mailbox of the project `name`.
    pub fn set(&mut self, name: &String, entry: Entry)
        requires
            old(self).wf(),
        ensures
            final(self).wf(),
            final(self)@ == old(self)@.insert(
                name@,
                ProjectView {
                    mailbox: project_of(old(self)@, name@).mailbox.insert(entry.key@, entry.value@),
                    ..project_of(old(self)@, name@)
                },
            ),
    {
        let ghost before = self@;
        let i = self.slot(name);
        let ghost middle = self@;
        let ghost names = texts(self.names@);
        let ghost views = project_views(self.projects@);
        let ghost key = entry.key@;
        let ghost value = entry.value@;
        self.projects[i].set(entry);
        proof {
            let now = project_views(self.projects@)[i as int];
            lemma_assoc_update(names, views, name@, i as int, now);
            assert(project_views(self.projects@) =~= views.update(i as int, now));
            assert(self@ =~= before.insert(name@, project_views(self.projects@)[i as int]));
        }
    }
}

} // verus!
