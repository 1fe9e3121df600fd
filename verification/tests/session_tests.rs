use flcq::calibration::{
    calibration, lc_cref_choice, quartz_cref_choice, CalibrationAction, CrefSlot, QuartzSlot,
};
use flcq::commands::{MacroCommand, TCommand, TCommandEeprom};
use flcq::detect::Detect;
use flcq::eeprom::TEeprom;
use flcq::inductance::TInductanceL;
use std::cell::RefCell;
use std::rc::Rc;

struct Log {
    log: Rc<RefCell<Vec<u32>>>,
    id: u32,
    runs: u64,
}

impl TCommand for Log {
    fn performed(&self) -> u64 {
        self.runs
    }

    fn execute(&mut self) {
        self.runs = self.runs.wrapping_add(1);
        self.log.borrow_mut().push(self.id);
    }
}

struct SetCount {
    count: u8,
    runs: u64,
}

impl TCommandEeprom for SetCount {
    fn performed(&self) -> u64 {
        self.runs
    }

    fn apply(&self, mut e: TEeprom) -> TEeprom {
        e.c.n_cref1 = self.count;
        e
    }

    fn execute(&mut self, eeprom: &mut TEeprom) {
        self.runs = self.runs.wrapping_add(1);
        *eeprom = self.apply(*eeprom);
    }
}

struct Nop {
    runs: u64,
}

impl TCommand for Nop {
    fn performed(&self) -> u64 {
        self.runs
    }

    fn execute(&mut self) {
        self.runs = self.runs.wrapping_add(1);
    }
}

#[test]
fn detect_first_port_is_used() {
    let mut d = Detect::default();
    assert_eq!(d.get_port(), None);
    assert!(!d.found("COM1".to_string(), &[0x0E, 1, 2]));
    assert!(d.found("COM3".to_string(), &[0x0E, 4, 5, 0xFF]));
    assert!(d.found("COM4".to_string(), &[0x0E, 6, 7, 0xFF]));
    assert_eq!(d.get_port(), Some(("COM3".to_string(), 4, 5)));
}

#[test]
fn detect_ignores_wrong_replies() {
    let mut d = Detect::new();
    assert!(!d.found("COM1".to_string(), &[0x0D, 1, 2, 0xFF]));
    assert_eq!(d.get_port(), None);
}

#[test]
fn macro_command_runs_in_order() {
    let log = Rc::new(RefCell::new(Vec::new()));
    let mut m = MacroCommand::new();
    m.append(Box::new(Log { log: log.clone(), id: 1, runs: 0 }));
    m.append(Box::new(Log { log: log.clone(), id: 2, runs: 0 }));
    m.append(Box::new(Log { log: log.clone(), id: 3, runs: 0 }));
    m.undo();
    m.execute();
    assert_eq!(*log.borrow(), vec![1, 2]);
    m.clear();
    m.execute();
    assert_eq!(*log.borrow(), vec![1, 2]);
}

#[test]
fn macro_command_record_commands_need_a_record() {
    let mut e = TEeprom::default();
    {
        let mut m = MacroCommand::new();
        m.append_eeprom(Box::new(SetCount { count: 9, runs: 0 }));
        m.append(Box::new(Nop { runs: 0 }));
        m.execute();
        m.eeprom(&mut e);
        m.execute();
    }
    assert_eq!(e.c.n_cref1, 9);
}

#[test]
fn calibration_dispatch() {
    assert_eq!(
        calibration(true, true, false, false, Some(1000), Some(100), None, None),
        CalibrationAction::Frequency { count: 100, ref_frequency: 1000 }
    );
    assert_eq!(
        calibration(true, false, false, false, None, Some(100), None, None),
        CalibrationAction::Nothing
    );
    assert_eq!(
        calibration(true, false, false, false, Some(1000), None, None, None),
        CalibrationAction::Nothing
    );
    assert_eq!(
        calibration(false, true, true, false, None, None, Some(1000), Some(47)),
        CalibrationAction::Capacity { c1: Some(1000), c2: Some(47) }
    );
    assert_eq!(
        calibration(false, false, true, true, None, None, Some(1000), Some(47)),
        CalibrationAction::Induction { c1: Some(1000), c2: Some(47) }
    );
    assert_eq!(
        calibration(false, false, false, true, None, None, None, None),
        CalibrationAction::Quartz
    );
    assert_eq!(
        calibration(false, false, false, false, None, None, None, None),
        CalibrationAction::Nothing
    );
}

#[test]
fn lc_choice() {
    assert_eq!(lc_cref_choice(&"1".to_string()), Some(CrefSlot::Cref1));
    assert_eq!(lc_cref_choice(&"2".to_string()), Some(CrefSlot::Cref2));
    assert_eq!(lc_cref_choice(&"3".to_string()), None);
    assert_eq!(lc_cref_choice(&"12".to_string()), None);
}

#[test]
fn inductance_table_preference() {
    let mut t = TInductanceL::default();
    assert_eq!(t.get(), None);
    *t.get_c() = Some((1, 2));
    assert_eq!(t.get(), Some((1, 2)));
    *t.get_l() = Some((3, 4));
    assert_eq!(t.get(), Some((3, 4)));
    t.reset();
    assert_eq!(t.get(), None);
}

#[test]
fn quartz_choice() {
    assert_eq!(quartz_cref_choice(&"1".to_string()), Some(QuartzSlot::Cq));
    assert_eq!(quartz_cref_choice(&"2".to_string()), Some(QuartzSlot::Cswitch));
    assert_eq!(quartz_cref_choice(&"3".to_string()), Some(QuartzSlot::Cref1));
    assert_eq!(quartz_cref_choice(&"4".to_string()), Some(QuartzSlot::Cref2));
    assert_eq!(quartz_cref_choice(&"5".to_string()), None);
}

#[test]
fn macro_command_later_record_replaces_earlier() {
    let mut first = TEeprom::default();
    let mut second = TEeprom::default();
    {
        let mut m = MacroCommand::new();
        m.append_eeprom(Box::new(SetCount { count: 5, runs: 0 }));
        m.eeprom(&mut first);
        m.eeprom(&mut second);
        m.execute();
    }
    assert_eq!(first.c.n_cref1, 0xFF);
    assert_eq!(second.c.n_cref1, 5);
}

#[test]
fn macro_command_record_commands_in_order() {
    let mut e = TEeprom::default();
    {
        let mut m = MacroCommand::new();
        m.append_eeprom(Box::new(SetCount { count: 1, runs: 0 }));
        m.append_eeprom(Box::new(SetCount { count: 2, runs: 0 }));
        m.eeprom(&mut e);
        m.execute();
    }
    assert_eq!(e.c.n_cref1, 2);
}
