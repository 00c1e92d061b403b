//! The process modeller's web frontend.

use vstd::prelude::*;

use crate::modeller::frontend::{directories_of, frontend_directories, place, placed, static_assets, Asset, FrontendPlan};
use crate::text::join2;

verus! {

/// The assets of the process modeller's frontend: the static ones, the single
/// model page as it is and the summary.
pub open spec fn first_frontend_assets() -> Seq<Asset> {
    static_assets() + seq![Asset::SingleModelTemplateHtml, Asset::ModelSummaryHtml]
}

/// The frontend of the process modeller: everything goes to
/// `<to_folder>/finished`.
pub fn create_frontend(to_folder: &str) -> (plan: FrontendPlan)
    ensures
        plan.directory_paths() == frontend_directories(to_folder@ + "/finished"@),
        plan.file_paths() == placed(to_folder@ + "/finished"@, first_frontend_assets()),
{
    let base_path = join2(to_folder, "/finished");
    let mut assets: Vec<Asset> = Vec::new();
    assets.push(Asset::NormalizeCss);
    assets.push(Asset::SkeletonCss);
    assets.push(Asset::CustomJs);
    assets.push(Asset::PlotlyJs);
    assets.push(Asset::SingleModelTemplateHtml);
    assets.push(Asset::ModelSummaryHtml);
    assert(assets@ =~= first_frontend_assets());
    FrontendPlan { directories: directories_of(base_path.as_str()), files: place(base_path.as_str(), &assets) }
}

} // verus!
