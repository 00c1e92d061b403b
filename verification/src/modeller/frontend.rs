//! The files of the web frontend and where they go.
//!
//! Writing the frontend means creating a few directories and writing the
//! static assets, a summary page and one page per benchmark into them. The
//! functions here say which directories and which files, in order; the
//! contents of the assets live with the program that writes them.

use vstd::prelude::*;

use crate::modeller::benchmark_wrapper::{benchmark_type_name, op_name, BenchmarkType};
use crate::text::{join2, join3, replace_all, replaced, replaced_at_start, replaced_skips_prefix, replaced_without_pattern_start};

verus! {

/// Relative path of the normalize stylesheet.
pub const NORMALIZE_CSS_PATH: &'static str = "css/normalize.css";
/// Relative path of the skeleton stylesheet.
pub const SKELETON_CSS_PATH: &'static str = "css/skeleton.css";
/// Relative path of the frontend's own script.
pub const CUSTOM_JS_PATH: &'static str = "js/custom.js";
/// Relative path of the plotting library.
pub const PLOTLY_JS_PATH: &'static str = "js/plotly.1.33.1.min.js";
/// Relative path of the utility library.
pub const LODASH_JS_PATH: &'static str = "js/lodash.4.17.21.min.js";
/// Relative path of the page summarising all models.
pub const MODEL_SUMMARY_HTML_PATH: &'static str = "model_summary.html";
/// Relative path of the single model page, unparametrized.
pub const SINGLE_MODEL_HTML_PATH: &'static str = "single_model.html";
/// Relative path of the report on recorded accesses.
pub const USE_MODEL_REPORT_PATH: &'static str = "use_model_report.html";

/// A file of the frontend.
#[derive(Debug, Clone, Copy, PartialEq, Eq, Structural)]
pub enum Asset {
    NormalizeCss,
    SkeletonCss,
    CustomJs,
    PlotlyJs,
    LodashJs,
    ModelSummaryHtml,
    UseModelReportHtml,
    /// The single model page as it is, for all models.
    SingleModelTemplateHtml,
    /// The page of one model: its benchmark type and whether it reads.
    SingleModelHtml(BenchmarkType, bool),
}

/// Where an asset goes, relative to the frontend's directory.
pub open spec fn asset_path(a: Asset) -> Seq<char> {
    match a {
        Asset::NormalizeCss => NORMALIZE_CSS_PATH@,
        Asset::SkeletonCss => SKELETON_CSS_PATH@,
        Asset::CustomJs => CUSTOM_JS_PATH@,
        Asset::PlotlyJs => PLOTLY_JS_PATH@,
        Asset::LodashJs => LODASH_JS_PATH@,
        Asset::ModelSummaryHtml => MODEL_SUMMARY_HTML_PATH@,
        Asset::UseModelReportHtml => USE_MODEL_REPORT_PATH@,
        Asset::SingleModelTemplateHtml => SINGLE_MODEL_HTML_PATH@,
        Asset::SingleModelHtml(t, is_read_op) => benchmark_type_name(t) + "_"@ + op_name(is_read_op) + ".html"@,
    }
}

/// Where an asset goes, relative to the frontend's directory.
pub fn get_asset_path(a: Asset) -> (path: String)
    ensures
        path@ == asset_path(a),
{
    match a {
        Asset::NormalizeCss => NORMALIZE_CSS_PATH.to_owned(),
        Asset::SkeletonCss => SKELETON_CSS_PATH.to_owned(),
        Asset::CustomJs => CUSTOM_JS_PATH.to_owned(),
        Asset::PlotlyJs => PLOTLY_JS_PATH.to_owned(),
        Asset::LodashJs => LODASH_JS_PATH.to_owned(),
        Asset::ModelSummaryHtml => MODEL_SUMMARY_HTML_PATH.to_owned(),
        Asset::UseModelReportHtml => USE_MODEL_REPORT_PATH.to_owned(),
        Asset::SingleModelTemplateHtml => SINGLE_MODEL_HTML_PATH.to_owned(),
        Asset::SingleModelHtml(t, is_read_op) => {
            let mut path = join3(t.to_string().as_str(), "_", if is_read_op { "read" } else { "write" });
            path.append(".html");
            path
        },
    }
}

/// The directories to create, in order, and the files to write, in order.
pub struct FrontendPlan {
    pub directories: Vec<String>,
    pub files: Vec<(Asset, String)>,
}

/// The paths of `assets` inside the directory `base`.
pub open spec fn placed(base: Seq<char>, assets: Seq<Asset>) -> Seq<(Asset, Seq<char>)> {
    assets.map_values(|a: Asset| (a, base + "/"@ + asset_path(a)))
}

/// `base` and its `css` and `js` subdirectories.
pub open spec fn frontend_directories(base: Seq<char>) -> Seq<Seq<char>> {
    seq![base, base + "/"@ + "css"@, base + "/"@ + "js"@]
}

impl FrontendPlan {
    /// The directories as paths.
    pub open spec fn directory_paths(&self) -> Seq<Seq<char>> {
        self.directories@.map_values(|d: String| d@)
    }

    /// The files as assets and paths.
    pub open spec fn file_paths(&self) -> Seq<(Asset, Seq<char>)> {
        self.files@.map_values(|f: (Asset, String)| (f.0, f.1@))
    }
}

/// `base` and its `css` and `js` subdirectories.
pub fn directories_of(base: &str) -> (dirs: Vec<String>)
    ensures
        dirs@.map_values(|d: String| d@) == frontend_directories(base@),
{
    let mut dirs: Vec<String> = Vec::new();
    dirs.push(base.to_owned());
    dirs.push(join3(base, "/", "css"));
    dirs.push(join3(base, "/", "js"));
    assert(dirs@.map_values(|d: String| d@) =~= frontend_directories(base@));
    dirs
}

/// The paths of `assets` inside the directory `base`.
pub fn place(base: &str, assets: &Vec<Asset>) -> (files: Vec<(Asset, String)>)
    ensures
        files@.map_values(|f: (Asset, String)| (f.0, f.1@)) == placed(base@, assets@),
{
    let mut files: Vec<(Asset, String)> = Vec::new();
    let mut i: usize = 0;
    while i < assets.len()
        invariant
            i <= assets.len(),
            files@.map_values(|f: (Asset, String)| (f.0, f.1@)) == placed(base@, assets@.take(i as int)),
        decreases assets.len() - i,
    {
        let a = assets[i];
        let path = join3(base, "/", get_asset_path(a).as_str());
        let ghost before = files@;
        files.push((a, path));
        assert(assets@.take(i + 1) =~= assets@.take(i as int).push(a));
        assert(placed(base@, assets@.take(i as int).push(a))
            =~= placed(base@, assets@.take(i as int)).push((a, base@ + "/"@ + asset_path(a))));
        assert(files@.map_values(|f: (Asset, String)| (f.0, f.1@))
            =~= before.map_values(|f: (Asset, String)| (f.0, f.1@)).push((a, base@ + "/"@ + asset_path(a))));
        i = i + 1;
    }
    assert(assets@.take(assets.len() as int) =~= assets@);
    files
}

/// The static assets every frontend has.
pub open spec fn static_assets() -> Seq<Asset> {
    seq![Asset::NormalizeCss, Asset::SkeletonCss, Asset::CustomJs, Asset::PlotlyJs]
}

/// The assets of the model frontend: the static ones, the utility library,
/// the summary and one page per benchmark, in the benchmarks' order.
pub open spec fn model_frontend_assets(benchmarks: Seq<(BenchmarkType, bool)>) -> Seq<Asset> {
    static_assets() + seq![Asset::LodashJs, Asset::ModelSummaryHtml]
        + benchmarks.map_values(|b: (BenchmarkType, bool)| Asset::SingleModelHtml(b.0, b.1))
}

/// The frontend of the models of `benchmarks` (each a benchmark type and
/// whether it reads): everything goes to `<to_folder>/finished`.
pub fn create_frontend(benchmarks: &[(BenchmarkType, bool)], to_folder: &str) -> (plan: FrontendPlan)
    ensures
        plan.directory_paths() == frontend_directories(to_folder@ + "/finished"@),
        plan.file_paths() == placed(to_folder@ + "/finished"@, model_frontend_assets(benchmarks@)),
{
    let base_path = join2(to_folder, "/finished");
    let mut assets: Vec<Asset> = Vec::new();
    assets.push(Asset::NormalizeCss);
    assets.push(Asset::SkeletonCss);
    assets.push(Asset::CustomJs);
    assets.push(Asset::PlotlyJs);
    assets.push(Asset::LodashJs);
    assets.push(Asset::ModelSummaryHtml);
    let mut i: usize = 0;
    while i < benchmarks.len()
        invariant
            i <= benchmarks.len(),
            assets@ == static_assets() + seq![Asset::LodashJs, Asset::ModelSummaryHtml]
                + benchmarks@.take(i as int).map_values(
                |b: (BenchmarkType, bool)| Asset::SingleModelHtml(b.0, b.1),
            ),
        decreases benchmarks.len() - i,
    {
        let (benchmark_type, is_read_op) = benchmarks[i];
        assets.push(Asset::SingleModelHtml(benchmark_type, is_read_op));
        assert(benchmarks@.take(i + 1).map_values(
            |b: (BenchmarkType, bool)| Asset::SingleModelHtml(b.0, b.1),
        ) =~= benchmarks@.take(i as int).map_values(
            |b: (BenchmarkType, bool)| Asset::SingleModelHtml(b.0, b.1),
        ).push(Asset::SingleModelHtml(benchmark_type, is_read_op)));
        i = i + 1;
    }
    assert(benchmarks@.take(benchmarks.len() as int) =~= benchmarks@);
    assert(assets@ =~= model_frontend_assets(benchmarks@));
    FrontendPlan { directories: directories_of(base_path.as_str()), files: place(base_path.as_str(), &assets) }
}

/// The frontend of a report on recorded accesses, in the directory `to`:
/// the static assets and the report page.
pub fn use_frontend(to: &str) -> (plan: FrontendPlan)
    ensures
        plan.directory_paths() == frontend_directories(to@),
        plan.file_paths() == placed(to@, static_assets().push(Asset::UseModelReportHtml)),
{
    let mut assets: Vec<Asset> = Vec::new();
    assets.push(Asset::NormalizeCss);
    assets.push(Asset::SkeletonCss);
    assets.push(Asset::CustomJs);
    assets.push(Asset::PlotlyJs);
    assets.push(Asset::UseModelReportHtml);
    assert(assets@ =~= static_assets().push(Asset::UseModelReportHtml));
    FrontendPlan { directories: directories_of(to), files: place(to, &assets) }
}

/// The page of one model: `template` with the benchmark type, in double
/// quotes, and the operation, as `true` or `false`, filled in.
pub open spec fn single_model_page(template: Seq<char>, t: BenchmarkType, is_read_op: bool) -> Seq<char> {
    replaced(
        replaced(template, "TYPE_OF_BENCHMARK"@, "\""@ + benchmark_type_name(t) + "\""@),
        "IS_READING_OPERATION"@,
        if is_read_op { "true"@ } else { "false"@ },
    )
}

/// Fills the benchmark type and the operation into the single model page,
/// in place of the placeholders `TYPE_OF_BENCHMARK` and `IS_READING_OPERATION`.
pub fn parametrize_single_model(template: &str, b: &BenchmarkType, is_read_op: bool) -> (page: String)
    ensures
        page@ == single_model_page(template@, *b, is_read_op),
{
    proof {
        reveal_strlit("TYPE_OF_BENCHMARK");
        reveal_strlit("IS_READING_OPERATION");
    }
    let quoted = join3("\"", b.to_string().as_str(), "\"");
    let with_type = replace_all(template, "TYPE_OF_BENCHMARK", quoted.as_str());
    replace_all(with_type.as_str(), "IS_READING_OPERATION", if is_read_op { "true" } else { "false" })
}

/// The page of a model shows that model's own benchmark type: in a
/// template made of any texts around the type placeholder (texts without
/// the characters `T` and `I` that start the placeholders), the placeholder
/// becomes the quoted name of the page's type and nothing else changes.
pub proof fn single_model_page_shows_its_own_type(u: Seq<char>, v: Seq<char>, t: BenchmarkType, is_read_op: bool)
    requires
        forall|i: int| 0 <= i < u.len() ==> u[i] != 'T' && u[i] != 'I',
        forall|i: int| 0 <= i < v.len() ==> v[i] != 'T' && v[i] != 'I',
    ensures
        single_model_page(u + "TYPE_OF_BENCHMARK"@ + v, t, is_read_op)
            == u + "\""@ + benchmark_type_name(t) + "\""@ + v,
{
    reveal_strlit("TYPE_OF_BENCHMARK");
    reveal_strlit("IS_READING_OPERATION");
    reveal_strlit("\"");
    reveal_strlit("RandomUncached");
    reveal_strlit("SameOffset");
    let p = "TYPE_OF_BENCHMARK"@;
    let q = "IS_READING_OPERATION"@;
    let w = "\""@ + benchmark_type_name(t) + "\""@;
    let x = if is_read_op { "true"@ } else { "false"@ };
    assert(p[0] == 'T');
    assert(q[0] == 'I');
    assert(u + p + v =~= u + (p + v));
    replaced_skips_prefix(u, p + v, p, w);
    replaced_at_start(p, v, w);
    replaced_without_pattern_start(v, p, w);
    let once = u + w + v;
    assert(replaced(u + p + v, p, w) =~= once);
    assert forall|i: int| 0 <= i < w.len() implies w[i] != 'I' by {
        match t {
            BenchmarkType::RandomUncached => {},
            BenchmarkType::SameOffset => {},
        }
    }
    assert forall|i: int| 0 <= i < once.len() implies once[i] != q[0] by {
        if i < u.len() {
            assert(once[i] == u[i]);
        } else if i < u.len() + w.len() {
            assert(once[i] == w[i - u.len()]);
        } else {
            assert(once[i] == v[i - u.len() - w.len()]);
        }
    }
    replaced_without_pattern_start(once, q, x);
}

proof fn lemma_type_placeholder_not_in_operation(rest: Seq<char>, w: Seq<char>)
    ensures
        replaced("IS_READING_OPERATION"@ + rest, "TYPE_OF_BENCHMARK"@, w)
            == "IS_READING_OPERATION"@ + replaced(rest, "TYPE_OF_BENCHMARK"@, w),
{
    reveal_strlit("TYPE_OF_BENCHMARK");
    reveal_strlit("IS_READING_OPERATION");
    let p = "TYPE_OF_BENCHMARK"@;
    let q = "IS_READING_OPERATION"@;
    let head = q.take(16);
    let tail = q.skip(17);
    assert(p[0] == 'T' && p[1] == 'Y');
    assert(q[16] == 'T' && q[17] == 'I');
    assert forall|i: int| 0 <= i < head.len() implies head[i] != p[0] by {
        assert(head[i] == q[i]);
    }
    assert forall|i: int| 0 <= i < tail.len() implies tail[i] != p[0] by {
        assert(tail[i] == q[i + 17]);
    }
    // Past the `T` of `OPERATION`, whose next character is no `Y`.
    let t2 = seq!['T'] + (tail + rest);
    assert(t2[1] == 'I');
    if p.len() <= t2.len() && t2.take(p.len() as int) == p {
        assert(t2.take(p.len() as int)[1] == t2[1]);
    }
    assert(t2.skip(1) =~= tail + rest);
    replaced_skips_prefix(tail, rest, p, w);
    assert(replaced(t2, p, w) == seq!['T'] + (tail + replaced(rest, p, w)));
    assert(q + rest =~= head + t2);
    replaced_skips_prefix(head, t2, p, w);
    assert(head + (seq!['T'] + (tail + replaced(rest, p, w))) =~= q + replaced(rest, p, w));
}

/// The page of a model shows whether it reads: in a template made of any
/// texts around the operation placeholder (texts without the characters `T`
/// and `I` that start the placeholders), the placeholder becomes `true` for
/// a reading model and `false` otherwise, and nothing else changes.
pub proof fn single_model_page_shows_its_own_operation(u: Seq<char>, v: Seq<char>, t: BenchmarkType, is_read_op: bool)
    requires
        forall|i: int| 0 <= i < u.len() ==> u[i] != 'T' && u[i] != 'I',
        forall|i: int| 0 <= i < v.len() ==> v[i] != 'T' && v[i] != 'I',
    ensures
        single_model_page(u + "IS_READING_OPERATION"@ + v, t, is_read_op)
            == u + (if is_read_op { "true"@ } else { "false"@ }) + v,
{
    reveal_strlit("TYPE_OF_BENCHMARK");
    reveal_strlit("IS_READING_OPERATION");
    let p = "TYPE_OF_BENCHMARK"@;
    let q = "IS_READING_OPERATION"@;
    let w = "\""@ + benchmark_type_name(t) + "\""@;
    let x = if is_read_op { "true"@ } else { "false"@ };
    assert(p[0] == 'T');
    assert(q[0] == 'I');
    assert(u + q + v =~= u + (q + v));
    replaced_skips_prefix(u, q + v, p, w);
    lemma_type_placeholder_not_in_operation(v, w);
    replaced_without_pattern_start(v, p, w);
    assert(replaced(u + q + v, p, w) =~= u + q + v);
    replaced_skips_prefix(u, q + v, q, x);
    replaced_at_start(q, v, x);
    replaced_without_pattern_start(v, q, x);
    assert(u + (x + v) =~= u + x + v);
}

} // verus!
