//! Preprocessing stages that may replace a file before it is classified, in a fixed
//! order. The stages here decide which conversions happen and where their output goes;
//! running the conversion tools is the caller's part.

use vstd::prelude::*;
use crate::utils::{extension, extension_of, lower_of, lowercase, replace_extension, str_eq, with_extension_of};

verus! {

/// Converts HEIC/HEIF images to PNG, where a conversion tool is available.
#[derive(Debug, Clone, Copy, PartialEq, Eq, Structural)]
pub struct HeicConverter;

/// A path whose extension is `heic` or `heif`, in any case.
pub open spec fn is_heic_path(p: Seq<char>) -> bool {
    match extension_of(p) {
        Some(e) => lower_of(e) == "heic"@ || lower_of(e) == "heif"@,
        None => false,
    }
}

impl HeicConverter {
    pub fn new() -> (r: Self) {
        HeicConverter
    }

    pub fn name(&self) -> (r: &'static str)
        ensures
            r@ == "HEIC to PNG Converter"@,
    {
        "HEIC to PNG Converter"
    }

    /// Whether the converter handles `path`: a HEIC/HEIF file, with the tool available.
    pub fn should_process(&self, path: &str, tools_available: bool) -> (r: bool)
        ensures
            r == (is_heic_path(path@) && tools_available),
    {
        match extension(path) {
            Some(e) => {
                let lower = lowercase(e.as_str());
                (str_eq(lower.as_str(), "heic") || str_eq(lower.as_str(), "heif")) && tools_available
            },
            None => false,
        }
    }

    /// Where the converted image is written: the path with extension `png`.
    pub fn output_path(&self, path: &str) -> (r: String)
        ensures
            r@ == with_extension_of(path@, "png"@),
    {
        proof {
            reveal_strlit("png");
        }
        replace_extension(path, "png")
    }
}

/// The closed set of preprocessing stages.
#[derive(Debug, Clone, Copy, PartialEq, Eq, Structural)]
pub enum Preprocessor {
    HeicConversion(HeicConverter),
}

/// Whether a stage handles `p`.
pub open spec fn stage_applies(s: Preprocessor, p: Seq<char>, tools_available: bool) -> bool {
    match s {
        Preprocessor::HeicConversion(_) => is_heic_path(p) && tools_available,
    }
}

/// The path a stage leaves in place of `p`.
pub open spec fn stage_output(s: Preprocessor, p: Seq<char>) -> Seq<char> {
    match s {
        Preprocessor::HeicConversion(_) => with_extension_of(p, "png"@),
    }
}

/// The conversions that `stages` perform, in order, on a file at `p`: each stage that
/// handles the current path replaces it by its output.
pub open spec fn planned(stages: Seq<Preprocessor>, p: Seq<char>, tools_available: bool) -> Seq<
    (Seq<char>, Seq<char>),
>
    decreases stages.len(),
{
    if stages.len() == 0 {
        Seq::empty()
    } else if stage_applies(stages[0], p, tools_available) {
        seq![(p, stage_output(stages[0], p))] + planned(
            stages.skip(1),
            stage_output(stages[0], p),
            tools_available,
        )
    } else {
        planned(stages.skip(1), p, tools_available)
    }
}

impl Preprocessor {
    pub fn name(&self) -> (r: &'static str)
        ensures
            r@ == "HEIC to PNG Converter"@,
    {
        match self {
            Preprocessor::HeicConversion(h) => h.name(),
        }
    }

    pub fn should_process(&self, path: &str, tools_available: bool) -> (r: bool)
        ensures
            r == stage_applies(*self, path@, tools_available),
    {
        match self {
            Preprocessor::HeicConversion(h) => h.should_process(path, tools_available),
        }
    }

    pub fn output_path(&self, path: &str) -> (r: String)
        ensures
            r@ == stage_output(*self, path@),
    {
        match self {
            Preprocessor::HeicConversion(h) => h.output_path(path),
        }
    }
}

/// One conversion: the file at `source` is replaced by the file at `output`.
#[derive(Debug)]
pub struct Conversion {
    pub source: String,
    pub output: String,
}

pub open spec fn conversion_views(c: Seq<Conversion>) -> Seq<(Seq<char>, Seq<char>)> {
    c.map_values(|x: Conversion| (x.source@, x.output@))
}

/// Stages applied to each file in a fixed order.
pub struct PreprocessorPipeline {
    pub stages: Vec<Preprocessor>,
}

impl PreprocessorPipeline {
    /// The default pipeline: HEIC/HEIF conversion.
    pub fn new() -> (r: Self)
        ensures
            r.stages@ == seq![Preprocessor::HeicConversion(HeicConverter)],
    {
        let mut stages: Vec<Preprocessor> = Vec::new();
        stages.push(Preprocessor::HeicConversion(HeicConverter::new()));
        PreprocessorPipeline { stages }
    }

    /// The conversions to perform on the file at `path`, in order; the path of the file
    /// to organize afterwards is the last output, or `path` where there is none.
    pub fn process(&self, path: &str, tools_available: bool) -> (r: Vec<Conversion>)
        ensures
            conversion_views(r@) == planned(self.stages@, path@, tools_available),
    {
        let mut out: Vec<Conversion> = Vec::new();
        let mut current = String::from_str(path);
        let mut i: usize = 0;
        assert(self.stages@.skip(0) =~= self.stages@);
        assert(conversion_views(out@) + planned(self.stages@, path@, tools_available) =~= planned(
            self.stages@,
            path@,
            tools_available,
        ));
        while i < self.stages.len()
            invariant
                0 <= i <= self.stages@.len(),
                conversion_views(out@) + planned(self.stages@.skip(i as int), current@, tools_available)
                    == planned(self.stages@, path@, tools_available),
            decreases self.stages@.len() - i,
        {
            let stage = self.stages[i];
            proof {
                assert(self.stages@.skip(i as int)[0] == stage);
                assert(self.stages@.skip(i as int).skip(1) =~= self.stages@.skip(i + 1));
            }
            if stage.should_process(current.as_str(), tools_available) {
                let next = stage.output_path(current.as_str());
                let ghost before = out@;
                out.push(Conversion { source: current, output: next.clone() });
                proof {
                    assert(conversion_views(out@) =~= conversion_views(before) + seq![
                        (out@.last().source@, out@.last().output@),
                    ]);
                }
                current = next;
            }
            i += 1;
        }
        assert(self.stages@.skip(self.stages@.len() as int) =~= Seq::<Preprocessor>::empty());
        assert(conversion_views(out@) =~= conversion_views(out@) + Seq::<(Seq<char>, Seq<char>)>::empty());
        out
    }
}

} // verus!
