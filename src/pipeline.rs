use vstd::prelude::*;
use crate::clock::{local_now, push_stamp, stamp_text, LocalTime};
use crate::codec::{decode, decode_result, encode_png, png_encoded};
use crate::error::HdrError;
use crate::luma::{average_luma, luma_of, LumaRatio};
use crate::merge::{batch_size_ok, check_batch_size, merge_outcome, merge_rasters, views};
use crate::paths::{join_path, parent_dir, path_join, path_parent};
use crate::raster::{Raster, RasterView};

verus! {

/// A source image: its path and what reading the file gave, its bytes or
/// the reason it could not be read.
pub struct InputFile {
    pub path: String,
    pub contents: Result<Vec<u8>, String>,
}

/// What an input decodes to, if it was read and decoded.
pub open spec fn load(f: InputFile) -> Option<RasterView> {
    match f.contents {
        Ok(b) => decode_result(b@),
        Err(_) => None,
    }
}

/// Whether every input was read and decoded.
pub open spec fn all_load(s: Seq<InputFile>) -> bool {
    forall|i: int| 0 <= i < s.len() ==> (#[trigger] load(s[i])) is Some
}

/// Whether input `i` is the first that could not be read or decoded.
pub open spec fn first_failure(s: Seq<InputFile>, i: int) -> bool {
    &&& 0 <= i < s.len()
    &&& load(s[i]) is None
    &&& forall|j: int| 0 <= j < i ==> (#[trigger] load(s[j])) is Some
}

/// The error reported for a failed input: the read error where reading
/// failed, a decode error otherwise.
pub open spec fn failure_matches(f: InputFile, e: HdrError) -> bool {
    &&& e is Decode
    &&& f.contents matches Err(m) ==> e == HdrError::Decode(m)
}

/// The decoded rasters of the inputs, all of which load.
pub open spec fn loaded_views(s: Seq<InputFile>) -> Seq<RasterView> {
    s.map_values(|f: InputFile| load(f).unwrap())
}

fn load_input(f: &InputFile) -> (r: Result<Raster, HdrError>)
    ensures
        r is Ok <==> load(*f) is Some,
        r matches Ok(ras) ==> ras.wf() && load(*f) == Some(ras@),
        r matches Err(e) ==> failure_matches(*f, e),
{
    match &f.contents {
        Ok(bytes) => decode(bytes.as_slice()),
        Err(m) => Err(HdrError::Decode(m.clone())),
    }
}

/// Decodes every input in order, stopping at the first that fails.
pub fn decode_inputs(inputs: &Vec<InputFile>) -> (r: Result<Vec<Raster>, HdrError>)
    ensures
        r is Ok <==> all_load(inputs@),
        r matches Ok(rs) ==> rs@.len() == inputs@.len() && views(rs@) == loaded_views(inputs@)
            && forall|i: int| 0 <= i < rs@.len() ==> #[trigger] rs@[i].wf(),
        r matches Err(e) ==> exists|i: int|
            first_failure(inputs@, i) && failure_matches(#[trigger] inputs@[i], e),
{
    let mut out: Vec<Raster> = Vec::new();
    let mut i: usize = 0;
    while i < inputs.len()
        invariant
            0 <= i <= inputs@.len(),
            out@.len() == i,
            forall|j: int| 0 <= j < i ==> (#[trigger] load(inputs@[j])) is Some,
            forall|j: int| 0 <= j < i ==> (#[trigger] out@[j]).wf() && load(inputs@[j]) == Some(out@[j]@),
        decreases inputs@.len() - i,
    {
        match load_input(&inputs[i]) {
            Ok(ras) => out.push(ras),
            Err(e) => {
                assert(first_failure(inputs@, i as int));
                return Err(e);
            },
        }
        i += 1;
    }
    assert forall|j: int| 0 <= j < out@.len() implies views(out@)[j] == loaded_views(inputs@)[j] by {
        assert(out@[j].wf() && load(inputs@[j]) == Some(out@[j]@));
    }
    assert(views(out@) =~= loaded_views(inputs@));
    Ok(out)
}

/// The average luma of one source image.
pub struct ImageStat {
    pub path: String,
    pub average_luma: LumaRatio,
}

/// Average luma of each input, in input order. Fails with `NoInput` on an
/// empty list, and otherwise as the first input that cannot be read or
/// decoded, with no partial list.
pub fn analyze_images(inputs: &Vec<InputFile>) -> (r: Result<Vec<ImageStat>, HdrError>)
    ensures
        inputs@.len() == 0 ==> r == Err::<Vec<ImageStat>, HdrError>(HdrError::NoInput),
        inputs@.len() > 0 ==> (r is Ok <==> all_load(inputs@)),
        r matches Ok(stats) ==> stats@.len() == inputs@.len() && forall|i: int|
            0 <= i < stats@.len() ==> (#[trigger] stats@[i]).path@ == inputs@[i].path@
                && stats@[i].average_luma == luma_of(load(inputs@[i]).unwrap()),
        inputs@.len() > 0 ==> (r matches Err(e) ==> exists|i: int|
            first_failure(inputs@, i) && failure_matches(#[trigger] inputs@[i], e)),
{
    if inputs.len() == 0 {
        return Err(HdrError::NoInput);
    }
    let mut stats: Vec<ImageStat> = Vec::new();
    let mut i: usize = 0;
    while i < inputs.len()
        invariant
            0 <= i <= inputs@.len(),
            stats@.len() == i,
            forall|j: int| 0 <= j < i ==> (#[trigger] load(inputs@[j])) is Some,
            forall|j: int|
                0 <= j < i ==> (#[trigger] stats@[j]).path@ == inputs@[j].path@
                    && stats@[j].average_luma == luma_of(load(inputs@[j]).unwrap()),
        decreases inputs@.len() - i,
    {
        match load_input(&inputs[i]) {
            Ok(ras) => {
                let l = average_luma(&ras);
                stats.push(ImageStat { path: inputs[i].path.clone(), average_luma: l });
            },
            Err(e) => {
                assert(first_failure(inputs@, i as int));
                return Err(e);
            },
        }
        i += 1;
    }
    Ok(stats)
}

/// The directory the outputs go to: the requested one, else the parent of
/// the first input's path.
pub open spec fn output_dir_of(requested: Option<String>, first: Seq<char>) -> Option<Seq<char>> {
    match requested {
        Some(d) => Some(d@),
        None => path_parent(first),
    }
}

/// Picks the output directory; `PathError` when none is requested and the
/// first path has no parent.
pub fn choose_output_dir(requested: &Option<String>, first: &str) -> (r: Result<String, HdrError>)
    ensures
        r is Ok <==> output_dir_of(*requested, first@) is Some,
        r matches Ok(d) ==> output_dir_of(*requested, first@) == Some(d@),
        r is Err ==> r == Err::<String, HdrError>(HdrError::PathError),
{
    match requested {
        Some(d) => Ok(d.clone()),
        None => match parent_dir(first) {
            Some(p) => Ok(p),
            None => Err(HdrError::PathError),
        },
    }
}

/// The base name of the outputs of a merge made at `t`.
pub open spec fn base_name(t: LocalTime) -> Seq<char> {
    seq!['h', 'd', 'r', '_', 'm', 'e', 'r', 'g', 'e', '_'] + stamp_text(t)
}

/// Path of the display output of a merge made at `t` into `dir`.
pub open spec fn png_path_of(dir: Seq<char>, t: LocalTime) -> Seq<char> {
    path_join(dir, base_name(t) + seq!['.', 'p', 'n', 'g'])
}

/// Path of the linear output of a merge made at `t` into `dir`.
pub open spec fn exr_path_of(dir: Seq<char>, t: LocalTime) -> Seq<char> {
    path_join(dir, base_name(t) + seq!['.', 'e', 'x', 'r'])
}

/// Output paths of a merge made at `t` into `dir`: the PNG path, and the
/// EXR path when the linear output is wanted.
pub fn output_paths(dir: &str, t: &LocalTime, want_exr: bool) -> (r: (String, Option<String>))
    ensures
        r.0@ == png_path_of(dir@, *t),
        want_exr ==> (r.1 matches Some(e) && e@ == exr_path_of(dir@, *t)),
        !want_exr ==> r.1 is None,
{
    proof {
        reveal_strlit("hdr_merge_");
        reveal_strlit(".png");
        reveal_strlit(".exr");
    }
    let mut base = String::from_str("hdr_merge_");
    push_stamp(&mut base, t);
    let png_name = base.clone().concat(".png");
    let png = join_path(dir, png_name.as_str());
    assert(png_name@ =~= base_name(*t) + seq!['.', 'p', 'n', 'g']);
    if want_exr {
        let exr_name = base.concat(".exr");
        assert(exr_name@ =~= base_name(*t) + seq!['.', 'e', 'x', 'r']);
        (png, Some(join_path(dir, exr_name.as_str())))
    } else {
        (png, None)
    }
}

/// Everything a merge computes before its outputs are written: the merged
/// raster, the directory and paths of the outputs, and the PNG file's bytes.
pub struct MergePlan {
    pub merged: Raster,
    pub output_dir: String,
    pub png_path: String,
    pub exr_path: Option<String>,
    pub png: Vec<u8>,
}

/// Merges the inputs and prepares the outputs, stamped with the local time.
/// Fails, in this order, with `InvalidArgument` unless there are two to five
/// inputs, with the first input that cannot be read or decoded, with
/// `DimensionMismatch` when sizes differ, with `PathError` when no output
/// directory can be derived, and with `Encode` when the PNG cannot be made.
pub fn plan_merge(inputs: &Vec<InputFile>, output_dir: &Option<String>, want_exr: bool) -> (r: Result<
    MergePlan,
    HdrError,
>)
    ensures
        !batch_size_ok(inputs@.len() as int) ==> r == Err::<MergePlan, HdrError>(
            HdrError::InvalidArgument,
        ),
        batch_size_ok(inputs@.len() as int) && !all_load(inputs@) ==> (r matches Err(e)
            && exists|i: int| first_failure(inputs@, i) && failure_matches(#[trigger] inputs@[i], e)),
        batch_size_ok(inputs@.len() as int) && all_load(inputs@) ==> match merge_outcome(
            loaded_views(inputs@),
        ) {
            Err(e) => r == Err::<MergePlan, HdrError>(e),
            Ok(m) => match output_dir_of(*output_dir, inputs@[0].path@) {
                None => r == Err::<MergePlan, HdrError>(HdrError::PathError),
                Some(dir) => match png_encoded(m) {
                    None => r matches Err(e) && e is Encode,
                    Some(png) => r matches Ok(plan) && plan.merged@ == m && plan.merged.wf()
                        && plan.output_dir@ == dir && plan.png@ == png && exists|t: LocalTime|
                        t.wf() && plan.png_path@ == png_path_of(dir, t) && (want_exr ==> (
                        plan.exr_path matches Some(e) && e@ == exr_path_of(dir, t)))
                        && (!want_exr ==> plan.exr_path is None),
                },
            },
        },
{
    if let Err(e) = check_batch_size(inputs.len()) {
        return Err(e);
    }
    let rasters = match decode_inputs(inputs) {
        Ok(rs) => rs,
        Err(e) => return Err(e),
    };
    let merged = match merge_rasters(&rasters) {
        Ok(m) => m,
        Err(e) => return Err(e),
    };
    let dir = match choose_output_dir(output_dir, inputs[0].path.as_str()) {
        Ok(d) => d,
        Err(e) => return Err(e),
    };
    let t = local_now();
    let (png_path, exr_path) = output_paths(dir.as_str(), &t, want_exr);
    let png = match encode_png(&merged) {
        Ok(b) => b,
        Err(e) => return Err(e),
    };
    Ok(MergePlan { merged, output_dir: dir, png_path, exr_path, png })
}

/// What a finished merge reports.
pub struct MergeResult {
    pub output_png_path: String,
    pub output_exr_path: Option<String>,
    pub width: u32,
    pub height: u32,
    pub merged_at: String,
}

/// The report of a merge whose outputs were written, stamped with the
/// local time in RFC 3339 form.
pub fn finish_merge(plan: &MergePlan) -> (r: MergeResult)
    ensures
        r.output_png_path@ == plan.png_path@,
        r.output_exr_path == plan.exr_path,
        r.width == plan.merged.width,
        r.height == plan.merged.height,
        exists|t: LocalTime| t.wf() && r.merged_at@ == t.rfc3339@,
{
    let t = local_now();
    MergeResult {
        output_png_path: plan.png_path.clone(),
        output_exr_path: plan.exr_path.clone(),
        width: plan.merged.width,
        height: plan.merged.height,
        merged_at: t.rfc3339.clone(),
    }
}

} // verus!
