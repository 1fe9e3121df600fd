//! A pair of C0 / L0 tables: one obtained from an inductance calibration,
//! one from a capacitance calibration.  The inductance table is preferred.
//! Each value is the bit pattern of an `f64`.
use vstd::prelude::*;

verus! {

/// Optional C0 / L0 pairs from an inductance and a capacitance calibration.
#[derive(Debug, Clone, Copy)]
pub struct TInductanceL {
    l_tab_c0l0: Option<(u64, u64)>,
    c_tab_c0l0: Option<(u64, u64)>,
}

impl TInductanceL {
    /// The pair from the inductance calibration.
    pub closed spec fn l_table(&self) -> Option<(u64, u64)> {
        self.l_tab_c0l0
    }

    /// The pair from the capacitance calibration.
    pub closed spec fn c_table(&self) -> Option<(u64, u64)> {
        self.c_tab_c0l0
    }

    /// The pair from the inductance calibration, to read or replace.
    pub fn get_l(&mut self) -> (r: &mut Option<(u64, u64)>)
        ensures
            *r == old(self).l_table(),
            final(self).l_table() == *final(r),
            final(self).c_table() == old(self).c_table(),
    {
        &mut self.l_tab_c0l0
    }

    /// The pair from the capacitance calibration, to read or replace.
    pub fn get_c(&mut self) -> (r: &mut Option<(u64, u64)>)
        ensures
            *r == old(self).c_table(),
            final(self).c_table() == *final(r),
            final(self).l_table() == old(self).l_table(),
    {
        &mut self.c_tab_c0l0
    }

    /// The pair to use: the inductance pair when there is one, else the
    /// capacitance pair, else none.
    pub fn get(&self) -> (r: Option<(u64, u64)>)
        ensures
            r == (if self.l_table() is Some {
                self.l_table()
            } else {
                self.c_table()
            }),
    {
        if let Some(_) = self.l_tab_c0l0 {
            self.l_tab_c0l0
        } else if let Some(_) = self.c_tab_c0l0 {
            self.c_tab_c0l0
        } else {
            None
        }
    }

    /// Forgets both pairs.
    pub fn reset(&mut self)
        ensures
            final(self).l_table() is None,
            final(self).c_table() is None,
    {
        self.l_tab_c0l0 = None;
        self.c_tab_c0l0 = None;
    }
}

impl Default for TInductanceL {
    /// Neither pair known.
    fn default() -> (t: Self)
        ensures
            t.l_table() is None,
            t.c_table() is None,
    {
        Self { l_tab_c0l0: None, c_tab_c0l0: None }
    }
}

} // verus!
