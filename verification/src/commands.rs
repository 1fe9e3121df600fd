//! Deferred commands: actions queued during a session and run together at
//! its end, those that change the calibration record after the others.
use vstd::prelude::*;
use crate::eeprom::TEeprom as Eeprom;

verus! {

/// A deferred action.
pub trait TCommand {
    /// How many times the action has been performed (counting modulo 2^64).
    spec fn performed(&self) -> u64;

    /// Performs the action once.
    fn execute(&mut self)
        ensures
            final(self).performed() == (old(self).performed() + 1) as u64,
    ;
}

/// A deferred action on the calibration record.
pub trait TCommandEeprom {
    /// How many times the action has been performed (counting modulo 2^64).
    spec fn performed(&self) -> u64;

    /// The record that performing the action turns `e` into.
    spec fn apply(&self, e: Eeprom) -> Eeprom;

    /// Performs the action once, on `eeprom`.
    fn execute(&mut self, eeprom: &mut Eeprom)
        ensures
            final(self).performed() == (old(self).performed() + 1) as u64,
            *final(eeprom) == old(self).apply(*old(eeprom)),
    ;
}

/// The record that the first `k` of `cmds`, performed in order, turn `e`
/// into.
pub open spec fn apply_prefix<'a>(cmds: Seq<Box<dyn TCommandEeprom + 'a>>, k: nat, e: Eeprom) -> Eeprom
    decreases k,
{
    if k == 0 {
        e
    } else {
        cmds[k - 1].apply(apply_prefix(cmds, (k - 1) as nat, e))
    }
}

/// The record that all of `cmds`, performed in order, turn `e` into.
pub open spec fn apply_all<'a>(cmds: Seq<Box<dyn TCommandEeprom + 'a>>, e: Eeprom) -> Eeprom {
    apply_prefix(cmds, cmds.len(), e)
}

/// Two queues of deferred commands and the calibration record that the
/// record commands act on.
pub struct MacroCommand<'b> {
    eeprom: Option<&'b mut Eeprom>,
    stack_eeprom: Vec<Box<dyn TCommandEeprom + 'b>>,
    stack: Vec<Box<dyn TCommand + 'b>>,
}

impl<'b> MacroCommand<'b> {
    /// The queued commands, oldest first.
    pub closed spec fn commands(&self) -> Seq<Box<dyn TCommand + 'b>> {
        self.stack@
    }

    /// The queued record commands, oldest first.
    pub closed spec fn eeprom_commands(&self) -> Seq<Box<dyn TCommandEeprom + 'b>> {
        self.stack_eeprom@
    }

    /// The attached calibration record, as it currently is.
    pub closed spec fn attached(&self) -> Option<Eeprom> {
        match self.eeprom {
            Some(r) => Some(*r),
            None => None,
        }
    }

    /// Whether a calibration record has been attached.
    pub open spec fn has_eeprom(&self) -> bool {
        self.attached() is Some
    }

    /// Empty queues, no record attached.
    pub fn new() -> (m: Self)
        ensures
            m.commands().len() == 0,
            m.eeprom_commands().len() == 0,
            m.attached() is None,
    {
        Self { stack_eeprom: Vec::new(), stack: Vec::new(), eeprom: None }
    }

    /// Queues a record command after those already queued.
    pub fn append_eeprom(&mut self, cmd: Box<dyn TCommandEeprom + 'b>)
        ensures
            final(self).eeprom_commands().len() == old(self).eeprom_commands().len() + 1,
            forall|i: int|
                0 <= i < old(self).eeprom_commands().len()
                    ==> #[trigger] final(self).eeprom_commands()[i] == old(self).eeprom_commands()[i],
            final(self).eeprom_commands() == old(self).eeprom_commands().push(cmd),
            final(self).commands() == old(self).commands(),
            final(self).attached() == old(self).attached(),
    {
        let ghost before = self.stack_eeprom@;
        self.stack_eeprom.push(cmd);
        proof {
            lemma_push(before, cmd);
        }
    }

    /// Queues a command after those already queued.
    pub fn append(&mut self, cmd: Box<dyn TCommand + 'b>)
        ensures
            final(self).commands().len() == old(self).commands().len() + 1,
            forall|i: int|
                0 <= i < old(self).commands().len()
                    ==> #[trigger] final(self).commands()[i] == old(self).commands()[i],
            final(self).commands() == old(self).commands().push(cmd),
            final(self).eeprom_commands() == old(self).eeprom_commands(),
            final(self).attached() == old(self).attached(),
    {
        let ghost before = self.stack@;
        self.stack.push(cmd);
        proof {
            lemma_push(before, cmd);
        }
    }

    /// Drops the most recently queued command, if any; record commands are
    /// not affected.
    pub fn undo(&mut self)
        ensures
            old(self).commands().len() == 0 ==> final(self).commands() == old(self).commands(),
            old(self).commands().len() > 0 ==> {
                &&& final(self).commands().len() == old(self).commands().len() - 1
                &&& forall|i: int|
                    0 <= i < final(self).commands().len()
                        ==> #[trigger] final(self).commands()[i] == old(self).commands()[i]
                &&& final(self).commands() == old(self).commands().drop_last()
            },
            final(self).eeprom_commands() == old(self).eeprom_commands(),
            final(self).attached() == old(self).attached(),
    {
        let ghost before = self.stack@;
        let _ = self.stack.pop();
        proof {
            if before.len() > 0 {
                lemma_drop_last(before);
            }
        }
    }

    /// Drops every queued command; record commands are not affected.
    pub fn clear(&mut self)
        ensures
            final(self).commands().len() == 0,
            final(self).eeprom_commands() == old(self).eeprom_commands(),
            final(self).attached() == old(self).attached(),
    {
        self.stack.clear();
    }

    /// Attaches `e` as the calibration record that the record commands act
    /// on, in place of any record attached before.
    pub fn eeprom(&mut self, e: &'b mut Eeprom)
        ensures
            final(self).attached() == Some(*old(e)),
            final(self).commands() == old(self).commands(),
            final(self).eeprom_commands() == old(self).eeprom_commands(),
    {
        self.eeprom = Some(e);
    }

    /// Runs every queued command once, in order, then, when a record is
    /// attached, every queued record command once, in order, on that record.
    /// The queues keep their commands; without a record the record commands
    /// are not run.
    pub fn execute(&mut self)
        ensures
            final(self).commands().len() == old(self).commands().len(),
            forall|i: int|
                0 <= i < old(self).commands().len()
                    ==> #[trigger] final(self).commands()[i].performed()
                    == (old(self).commands()[i].performed() + 1) as u64,
            final(self).eeprom_commands().len() == old(self).eeprom_commands().len(),
            old(self).attached() matches Some(r) ==> {
                &&& final(self).attached() == Some(apply_all(old(self).eeprom_commands(), r))
                &&& forall|j: int|
                    0 <= j < old(self).eeprom_commands().len()
                        ==> #[trigger] final(self).eeprom_commands()[j].performed()
                        == (old(self).eeprom_commands()[j].performed() + 1) as u64
            },
            old(self).attached() is None ==> {
                &&& final(self).attached() is None
                &&& final(self).eeprom_commands() == old(self).eeprom_commands()
            },
    {
        let n = self.stack.len();
        let mut i: usize = 0;
        while i < n
            invariant
                n == self.stack@.len(),
                n == old(self).stack@.len(),
                i <= n,
                forall|k: int|
                    0 <= k < i ==> #[trigger] self.stack@[k].performed() == (old(
                        self,
                    ).stack@[k].performed() + 1) as u64,
                forall|k: int| i <= k < n ==> #[trigger] self.stack@[k] == old(self).stack@[k],
                self.stack_eeprom@ == old(self).stack_eeprom@,
                self.attached() == old(self).attached(),
            decreases n - i,
        {
            self.stack[i].execute();
            i = i + 1;
        }
        let m = self.stack_eeprom.len();
        if let Some(e) = self.eeprom.take() {
            let ghost r0 = *e;
            let mut j: usize = 0;
            while j < m
                invariant
                    m == self.stack_eeprom@.len(),
                    m == old(self).stack_eeprom@.len(),
                    j <= m,
                    n == self.stack@.len(),
                    forall|k: int|
                        0 <= k < n ==> #[trigger] self.stack@[k].performed() == (old(
                            self,
                        ).stack@[k].performed() + 1) as u64,
                    forall|k: int|
                        0 <= k < j ==> #[trigger] self.stack_eeprom@[k].performed() == (old(
                            self,
                        ).stack_eeprom@[k].performed() + 1) as u64,
                    forall|k: int|
                        j <= k < m ==> #[trigger] self.stack_eeprom@[k] == old(
                            self,
                        ).stack_eeprom@[k],
                    *e == apply_prefix(old(self).stack_eeprom@, j as nat, r0),
                    self.eeprom is None,
                decreases m - j,
            {
                self.stack_eeprom[j].execute(&mut *e);
                j = j + 1;
            }
            self.eeprom = Some(e);
        }
    }
}

/// Pushing onto a queue adds one element at the end and keeps the others.
proof fn lemma_push<T>(s: Seq<T>, x: T)
    ensures
        s.push(x).len() == s.len() + 1,
        forall|i: int| 0 <= i < s.len() ==> #[trigger] s.push(x)[i] == s[i],
{
}

/// Dropping the last element of a queue keeps the others.
proof fn lemma_drop_last<T>(s: Seq<T>)
    requires
        s.len() > 0,
    ensures
        s.drop_last().len() == s.len() - 1,
        forall|i: int| 0 <= i < s.len() - 1 ==> #[trigger] s.drop_last()[i] == s[i],
{
}

/// Undoing right after appending a command gives back the queues and the
/// attached record as they were: `m2` is `m1` after `append(cmd)`, `m3` is
/// `m2` after `undo()`, each as the two contracts describe.
pub proof fn lemma_undo_after_append<'b>(
    m1: MacroCommand<'b>,
    m2: MacroCommand<'b>,
    m3: MacroCommand<'b>,
    cmd: Box<dyn TCommand + 'b>,
)
    requires
        m2.commands().len() == m1.commands().len() + 1,
        forall|i: int| 0 <= i < m1.commands().len() ==> #[trigger] m2.commands()[i] == m1.commands()[i],
        m2.eeprom_commands() == m1.eeprom_commands(),
        m2.attached() == m1.attached(),
        m3.commands().len() == m2.commands().len() - 1,
        forall|i: int| 0 <= i < m3.commands().len() ==> #[trigger] m3.commands()[i] == m2.commands()[i],
        m3.eeprom_commands() == m2.eeprom_commands(),
        m3.attached() == m2.attached(),
    ensures
        m3.commands() == m1.commands(),
        m3.eeprom_commands() == m1.eeprom_commands(),
        m3.attached() == m1.attached(),
{
    lemma_same_elements(m3.commands(), m1.commands());
}

/// Two queues with the same elements in the same places are equal.
proof fn lemma_same_elements<T>(a: Seq<T>, b: Seq<T>)
    requires
        a.len() == b.len(),
        forall|i: int| 0 <= i < a.len() ==> #[trigger] a[i] == b[i],
    ensures
        a == b,
{
    assert(a =~= b);
}

/// Record commands act in queue order: no commands leave the record as it
/// is, and the command at position `k` acts on what the `k` commands before
/// it made.
pub proof fn lemma_apply_in_order<'a>(cmds: Seq<Box<dyn TCommandEeprom + 'a>>, k: nat, e: Eeprom)
    requires
        k < cmds.len(),
    ensures
        apply_prefix(cmds, 0, e) == e,
        apply_prefix(cmds, k + 1, e) == cmds[k as int].apply(apply_prefix(cmds, k, e)),
{
}

} // verus!
