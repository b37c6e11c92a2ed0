//! State of the job configuration panel: the job's metadata as the user edits
//! it, with the print type, finish and dot shape type picked from fixed lists.

use vstd::prelude::*;
use crate::models::{default_step_labels, extended_steps, standard_steps};
use crate::text::{owned, views};

verus! {

/// The print types offered, in list order.
pub open spec fn print_types() -> Seq<Seq<char>> {
    seq!["CRS"@, "QUA"@]
}

/// The finishes offered, in list order.
pub open spec fn finishes() -> Seq<Seq<char>> {
    seq!["RP"@, "SP"@, "CBW SP"@]
}

/// The dot shape types offered, in list order.
pub open spec fn dot_shape_types() -> Seq<Seq<char>> {
    seq!["CRS"@, "CRY"@, "HD"@, "ESXR"@]
}

/// The entry at `idx` of `list`, or `fallback` past the end.
pub open spec fn pick(list: Seq<Seq<char>>, idx: int, fallback: Seq<char>) -> Seq<char> {
    if 0 <= idx < list.len() {
        list[idx]
    } else {
        fallback
    }
}

/// Which list of step labels the job uses.
#[derive(Clone, Copy, Debug, PartialEq, Eq, Structural)]
pub enum StepPreset {
    Standard14,
    Extended16,
}

/// State for the job configuration panel.
pub struct JobConfigState {
    pub customer: String,
    pub print_type_idx: usize,
    pub stock_desc: String,
    pub finish_idx: usize,
    pub dot_shape_type_idx: usize,
    pub dot_shape_number: String,
    pub date: String,
    pub set_number: String,
    pub job_number: String,
    pub weight_labels: Vec<String>,
    pub step_preset: StepPreset,
    /// Signals that weight labels changed this frame
    pub weights_changed: bool,
    /// Signals that step labels changed this frame
    pub steps_changed: bool,
}

impl JobConfigState {
    /// Empty metadata, the first entry of each list, LPIs 120# / 150# / 200#
    /// and the standard step list.
    pub fn new() -> (r: Self)
        ensures
            r.customer@.len() == 0 && r.stock_desc@.len() == 0 && r.dot_shape_number@.len() == 0,
            r.date@.len() == 0 && r.set_number@.len() == 0 && r.job_number@.len() == 0,
            r.print_type_idx == 0 && r.finish_idx == 0 && r.dot_shape_type_idx == 0,
            views(r.weight_labels@) == seq!["120#"@, "150#"@, "200#"@],
            r.step_preset == StepPreset::Standard14,
            !r.weights_changed && !r.steps_changed,
    {
        let mut weight_labels: Vec<String> = Vec::new();
        weight_labels.push(owned("120#"));
        weight_labels.push(owned("150#"));
        weight_labels.push(owned("200#"));
        assert(views(weight_labels@) =~= seq!["120#"@, "150#"@, "200#"@]);
        JobConfigState {
            customer: String::new(),
            print_type_idx: 0,
            stock_desc: String::new(),
            finish_idx: 0,
            dot_shape_type_idx: 0,
            dot_shape_number: String::new(),
            date: String::new(),
            set_number: String::new(),
            job_number: String::new(),
            weight_labels,
            step_preset: StepPreset::Standard14,
            weights_changed: false,
            steps_changed: false,
        }
    }

    /// The selected print type; "CRS" when the selection is out of range.
    pub fn print_type(&self) -> (r: &str)
        ensures
            r@ == pick(print_types(), self.print_type_idx as int, "CRS"@),
    {
        if self.print_type_idx == 1 {
            "QUA"
        } else {
            "CRS"
        }
    }

    /// The selected finish; "RP" when the selection is out of range.
    pub fn finish(&self) -> (r: &str)
        ensures
            r@ == pick(finishes(), self.finish_idx as int, "RP"@),
    {
        if self.finish_idx == 1 {
            "SP"
        } else if self.finish_idx == 2 {
            "CBW SP"
        } else {
            "RP"
        }
    }

    /// The selected dot shape type; "CRS" when the selection is out of range.
    pub fn dot_shape_type(&self) -> (r: &str)
        ensures
            r@ == pick(dot_shape_types(), self.dot_shape_type_idx as int, "CRS"@),
    {
        if self.dot_shape_type_idx == 1 {
            "CRY"
        } else if self.dot_shape_type_idx == 2 {
            "HD"
        } else if self.dot_shape_type_idx == 3 {
            "ESXR"
        } else {
            "CRS"
        }
    }

    /// Clear all job metadata fields (not weight labels or step preset).
    pub fn clear(&mut self)
        ensures
            final(self).customer@.len() == 0,
            final(self).stock_desc@.len() == 0,
            final(self).dot_shape_number@.len() == 0,
            final(self).date@.len() == 0,
            final(self).set_number@.len() == 0,
            final(self).job_number@.len() == 0,
            final(self).print_type_idx == 0,
            final(self).finish_idx == 0,
            final(self).dot_shape_type_idx == 0,
            final(self).weight_labels@ == old(self).weight_labels@,
            final(self).step_preset == old(self).step_preset,
            final(self).weights_changed == old(self).weights_changed,
            final(self).steps_changed == old(self).steps_changed,
    {
        self.customer = String::new();
        self.stock_desc = String::new();
        self.dot_shape_number = String::new();
        self.date = String::new();
        self.set_number = String::new();
        self.job_number = String::new();
        self.print_type_idx = 0;
        self.finish_idx = 0;
        self.dot_shape_type_idx = 0;
    }

    /// The step labels of the selected preset.
    pub fn step_labels(&self) -> (r: Vec<String>)
        ensures
            views(r@) == match self.step_preset {
                StepPreset::Standard14 => standard_steps(),
                StepPreset::Extended16 => extended_steps(),
            },
    {
        match self.step_preset {
            StepPreset::Standard14 => default_step_labels(),
            StepPreset::Extended16 => crate::settings::StepPreset::extended_16().steps,
        }
    }
}

} // verus!
