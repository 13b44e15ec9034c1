//! The sample files that the demonstrations work on: what there is to
//! download, and what of it is on disk.

use vstd::prelude::*;
use crate::text::{owned, to_chars, decimal, push_decimal};

verus! {

/// The product that a sample file belongs to.
#[derive(Debug, Clone, Copy, PartialEq, Eq, Structural)]
pub enum AssetCategory {
    Inventor,
    Revit,
    AutoCAD,
    Fusion,
    Civil3D,
}

impl AssetCategory {
    /// The name of the folder of the category.
    pub open spec fn folder(self) -> Seq<char> {
        match self {
            AssetCategory::Inventor => "inventor"@,
            AssetCategory::Revit => "revit"@,
            AssetCategory::AutoCAD => "autocad"@,
            AssetCategory::Fusion => "fusion"@,
            AssetCategory::Civil3D => "civil3d"@,
        }
    }

    /// The name of the category for the reader.
    pub open spec fn title(self) -> Seq<char> {
        match self {
            AssetCategory::Inventor => "Autodesk Inventor"@,
            AssetCategory::Revit => "Autodesk Revit"@,
            AssetCategory::AutoCAD => "AutoCAD"@,
            AssetCategory::Fusion => "Autodesk Fusion"@,
            AssetCategory::Civil3D => "Civil 3D"@,
        }
    }

    /// The name of the folder of the category.
    pub fn folder_name(&self) -> (s: &'static str)
        ensures
            s@ == self.folder(),
    {
        match self {
            AssetCategory::Inventor => "inventor",
            AssetCategory::Revit => "revit",
            AssetCategory::AutoCAD => "autocad",
            AssetCategory::Fusion => "fusion",
            AssetCategory::Civil3D => "civil3d",
        }
    }

    /// The name of the category for the reader.
    pub fn display_name(&self) -> (s: &'static str)
        ensures
            s@ == self.title(),
    {
        match self {
            AssetCategory::Inventor => "Autodesk Inventor",
            AssetCategory::Revit => "Autodesk Revit",
            AssetCategory::AutoCAD => "AutoCAD",
            AssetCategory::Fusion => "Autodesk Fusion",
            AssetCategory::Civil3D => "Civil 3D",
        }
    }
}

/// A sample file that can be downloaded.
#[derive(Debug)]
pub struct AssetDefinition {
    pub name: String,
    pub description: String,
    pub url: String,
    pub category: AssetCategory,
    /// Whether the file is an archive that has to be unpacked.
    pub is_archive: bool,
    /// The estimated size in thousands of bytes.
    pub estimated_size_kb: u64,
}

pub struct AssetDefinitionView {
    pub name: Seq<char>,
    pub description: Seq<char>,
    pub url: Seq<char>,
    pub category: AssetCategory,
    pub is_archive: bool,
    pub estimated_size_kb: u64,
}

impl View for AssetDefinition {
    type V = AssetDefinitionView;

    open spec fn view(&self) -> AssetDefinitionView {
        AssetDefinitionView {
            name: self.name@,
            description: self.description@,
            url: self.url@,
            category: self.category,
            is_archive: self.is_archive,
            estimated_size_kb: self.estimated_size_kb,
        }
    }
}

impl Clone for AssetDefinition {
    fn clone(&self) -> (r: Self)
        ensures
            r@ == self@,
    {
        AssetDefinition {
            name: self.name.clone(),
            description: self.description.clone(),
            url: self.url.clone(),
            category: self.category,
            is_archive: self.is_archive,
            estimated_size_kb: self.estimated_size_kb,
        }
    }
}

/// The views of a sequence of assets.
pub open spec fn asset_views(v: Seq<AssetDefinition>) -> Seq<AssetDefinitionView> {
    v.map_values(|a: AssetDefinition| a@)
}

/// Whether the asset at place `i` is on disk, by the answers given; an
/// asset without an answer is not.
pub open spec fn is_on_disk(on_disk: Seq<bool>, i: int) -> bool {
    0 <= i < on_disk.len() && on_disk[i]
}

/// The first `n` assets that are on disk, or those that are not, in their
/// order.
pub open spec fn sorted_out(
    assets: Seq<AssetDefinitionView>,
    on_disk: Seq<bool>,
    present: bool,
    n: int,
) -> Seq<AssetDefinitionView>
    decreases n,
{
    if n <= 0 {
        Seq::empty()
    } else {
        let earlier = sorted_out(assets, on_disk, present, n - 1);
        if is_on_disk(on_disk, n - 1) == present {
            earlier.push(assets[n - 1])
        } else {
            earlier
        }
    }
}

/// Where the last segment of the first `n` characters begins: behind the
/// last `/`, or at the start where there is none.
pub open spec fn segment_start(s: Seq<char>, n: int) -> int
    decreases n,
{
    if n <= 0 {
        0
    } else if s[n - 1] == '/' {
        n
    } else {
        segment_start(s, n - 1)
    }
}

/// What stands behind the last `/` of a text; the whole text where it
/// holds none.
pub open spec fn last_segment(s: Seq<char>) -> Seq<char> {
    s.subrange(segment_start(s, s.len() as int), s.len() as int)
}

proof fn lemma_segment_start_bounds(s: Seq<char>, n: int)
    requires
        0 <= n <= s.len(),
    ensures
        0 <= segment_start(s, n) <= n,
    decreases n,
{
    if n > 0 && s[n - 1] != '/' {
        lemma_segment_start_bounds(s, n - 1);
    }
}

impl AssetDefinition {
    /// The name of the file: what stands behind the last `/` of the
    /// address.
    pub fn filename(&self) -> (name: String)
        ensures
            name@ == last_segment(self.url@),
    {
        let chars = to_chars(self.url.as_str());
        let mut start: usize = chars.len();
        while start > 0 && chars[start - 1] != '/'
            invariant
                start <= chars.len(),
                segment_start(chars@, chars.len() as int) == segment_start(chars@, start as int),
            decreases start,
        {
            start = start - 1;
        }
        let mut name = String::new();
        let mut i: usize = start;
        while i < chars.len()
            invariant
                start <= i <= chars.len(),
                name@ == chars@.subrange(start as int, i as int),
            decreases chars.len() - i,
        {
            name.push(chars[i]);
            i = i + 1;
            assert(name@ =~= chars@.subrange(start as int, i as int));
        }
        name
    }
}

/// The sample files that are known.
#[derive(Debug, Clone)]
pub struct AssetRegistry {
    assets: Vec<AssetDefinition>,
}

/// The first `n` assets of a category, in their order.
pub open spec fn in_category(assets: Seq<AssetDefinition>, category: AssetCategory, n: int) -> Seq<
    AssetDefinition,
>
    decreases n,
{
    if n <= 0 {
        Seq::empty()
    } else {
        let earlier = in_category(assets, category, n - 1);
        if assets[n - 1].category == category {
            earlier.push(assets[n - 1])
        } else {
            earlier
        }
    }
}

/// The estimated sizes of the first `n` assets together.
pub open spec fn size_sum(assets: Seq<AssetDefinition>, n: int) -> int
    decreases n,
{
    if n <= 0 {
        0
    } else {
        size_sum(assets, n - 1) + assets[n - 1].estimated_size_kb
    }
}

fn sample(
    name: &str,
    description: &str,
    url: &str,
    category: AssetCategory,
    is_archive: bool,
    estimated_size_kb: u64,
) -> (a: AssetDefinition)
    ensures
        a.name@ == name@,
        a.description@ == description@,
        a.url@ == url@,
        a.category == category,
        a.is_archive == is_archive,
        a.estimated_size_kb == estimated_size_kb,
{
    AssetDefinition {
        name: owned(name),
        description: owned(description),
        url: owned(url),
        category,
        is_archive,
        estimated_size_kb,
    }
}

fn sum_sizes(assets: &Vec<AssetDefinition>) -> (total: u64)
    ensures
        total == if size_sum(assets@, assets@.len() as int) > u64::MAX {
            u64::MAX as int
        } else {
            size_sum(assets@, assets@.len() as int)
        },
{
    let mut total: u128 = 0;
    let mut i: usize = 0;
    while i < assets.len()
        invariant
            i <= assets.len(),
            total == size_sum(assets@, i as int),
            total <= i * u64::MAX,
        decreases assets.len() - i,
    {
        proof {
            assert(i * u64::MAX + u64::MAX == (i + 1) * u64::MAX) by (nonlinear_arith);
            assert((i + 1) * u64::MAX <= usize::MAX * u64::MAX) by (nonlinear_arith)
                requires
                    i + 1 <= usize::MAX,
            ;
        }
        total = total + assets[i].estimated_size_kb as u128;
        i = i + 1;
    }
    if total > u64::MAX as u128 {
        u64::MAX
    } else {
        total as u64
    }
}

impl AssetRegistry {
    /// The assets of the registry, in their order.
    pub closed spec fn assets(&self) -> Seq<AssetDefinition> {
        self.assets@
    }

    /// The registry of the sample files of Autodesk: three of Inventor,
    /// then six of Revit.
    pub fn new() -> (r: Self)
        ensures
            r.assets().len() == 9,
            forall|i: int| 0 <= i < 3 ==> (#[trigger] r.assets()[i]).category
                == AssetCategory::Inventor && r.assets()[i].is_archive,
            forall|i: int| 3 <= i < 9 ==> (#[trigger] r.assets()[i]).category
                == AssetCategory::Revit && !r.assets()[i].is_archive,
            size_sum(r.assets(), 9) == 158_400,
    {
        let mut assets: Vec<AssetDefinition> = Vec::new();
        assets.push(
            sample(
                "Inventor 2022 Samples",
                "Complete sample project files for Autodesk Inventor 2022, including assemblies, parts, and drawings",
                "https://damassets.autodesk.net/content/dam/autodesk/external-assets/support-articles/inventor-sample-files/autodesk_inventor_2022_samples.zip",
                AssetCategory::Inventor,
                true,
                150_000,
            ),
        );
        assets.push(
            sample(
                "Inventor Sheet Metal Punch Tool",
                "Sample iDE files for sheet metal punch tool functionality",
                "https://damassets.autodesk.net/content/dam/autodesk/external-assets/support-articles/inventor-sample-files/inventor-sheet-metal-punchtool-new-ide-files.zip",
                AssetCategory::Inventor,
                true,
                5_000,
            ),
        );
        assets.push(
            sample(
                "iLogic Vault Sample Rules",
                "Sample iLogic rules for Vault integration",
                "https://damassets.autodesk.net/content/dam/autodesk/external-assets/support-articles/inventor-sample-files/iLogic-Vault_SampleRules.zip",
                AssetCategory::Inventor,
                true,
                1_000,
            ),
        );
        assets.push(
            sample(
                "Revit MEP Advanced Sample Family",
                "Advanced MEP (Mechanical, Electrical, Plumbing) family sample",
                "https://damassets.autodesk.net/content/dam/autodesk/www/revit-downloads/rmeadvancedsamplefamily.rfa",
                AssetCategory::Revit,
                false,
                500,
            ),
        );
        assets.push(
            sample(
                "Revit MEP Basic Sample Family",
                "Basic MEP family sample for beginners",
                "https://damassets.autodesk.net/content/dam/autodesk/www/revit-downloads/rmebasicsamplefamily.rfa",
                AssetCategory::Revit,
                false,
                300,
            ),
        );
        assets.push(
            sample(
                "Revit Structure Advanced Sample Family",
                "Advanced structural family sample",
                "https://damassets.autodesk.net/content/dam/autodesk/www/revit-downloads/rstadvancedsamplefamily.rfa",
                AssetCategory::Revit,
                false,
                500,
            ),
        );
        assets.push(
            sample(
                "Revit Structure Basic Sample Family",
                "Basic structural family sample for beginners",
                "https://damassets.autodesk.net/content/dam/autodesk/www/revit-downloads/rstbasicsamplefamily.rfa",
                AssetCategory::Revit,
                false,
                300,
            ),
        );
        assets.push(
            sample(
                "Revit Architecture Advanced Sample Family",
                "Advanced architectural family sample",
                "https://damassets.autodesk.net/content/dam/autodesk/www/revit-downloads/racadvancedsamplefamily.rfa",
                AssetCategory::Revit,
                false,
                500,
            ),
        );
        assets.push(
            sample(
                "Revit Architecture Basic Sample Family",
                "Basic architectural family sample for beginners",
                "https://damassets.autodesk.net/content/dam/autodesk/www/revit-downloads/racbasicsamplefamily.rfa",
                AssetCategory::Revit,
                false,
                300,
            ),
        );
        proof {
            reveal_with_fuel(size_sum, 10);
        }
        AssetRegistry { assets }
    }

    /// All assets of the registry.
    pub fn all(&self) -> (all: &Vec<AssetDefinition>)
        ensures
            all@ == self.assets(),
    {
        &self.assets
    }

    /// The assets of a category, in their order.
    pub fn by_category(&self, category: AssetCategory) -> (r: Vec<&AssetDefinition>)
        ensures
            r@.map_values(|a: &AssetDefinition| *a) == in_category(
                self.assets(),
                category,
                self.assets().len() as int,
            ),
    {
        let mut r: Vec<&AssetDefinition> = Vec::new();
        let mut i: usize = 0;
        assert(r@.map_values(|a: &AssetDefinition| *a) =~= in_category(self.assets@, category, 0));
        while i < self.assets.len()
            invariant
                i <= self.assets@.len(),
                r@.map_values(|a: &AssetDefinition| *a) == in_category(
                    self.assets@,
                    category,
                    i as int,
                ),
            decreases self.assets@.len() - i,
        {
            let ghost prior = r@.map_values(|a: &AssetDefinition| *a);
            if self.assets[i].category == category {
                r.push(&self.assets[i]);
                assert(r@.map_values(|a: &AssetDefinition| *a) =~= prior.push(
                    self.assets@[i as int],
                ));
            }
            i = i + 1;
        }
        r
    }

    /// The estimated size of all assets together, in thousands of bytes;
    /// no more than a 64-bit number holds.
    pub fn total_size_kb(&self) -> (total: u64)
        ensures
            total == if size_sum(self.assets(), self.assets().len() as int) > u64::MAX {
                u64::MAX as int
            } else {
                size_sum(self.assets(), self.assets().len() as int)
            },
    {
        sum_sizes(&self.assets)
    }
}

impl Default for AssetRegistry {
    fn default() -> (r: Self)
        ensures
            r.assets().len() == 9,
    {
        Self::new()
    }
}

/// Which assets are on disk and which are not.
#[derive(Debug)]
pub struct AssetStatus {
    pub downloaded: Vec<AssetDefinition>,
    pub missing: Vec<AssetDefinition>,
    pub base_dir: String,
}

/// The summary of a status for the reader: how many assets are on disk,
/// and how much is left to download, in millions of bytes with one decimal
/// place, rounded down.
pub open spec fn status_summary(downloaded: nat, missing: nat, missing_kb: nat) -> Seq<char> {
    "Assets: "@ + decimal(downloaded) + "/"@ + decimal(downloaded + missing) + " downloaded ("@
        + decimal(missing_kb / 1000) + "."@ + decimal((missing_kb % 1000) / 100) + " MB remaining)"@
}

impl AssetStatus {
    /// Sorts the assets of a registry by whether they are on disk.
    /// `on_disk` says so for each asset, in the order of the registry; an
    /// asset without an answer counts as missing.
    pub fn of(registry: &AssetRegistry, on_disk: &Vec<bool>, base_dir: String) -> (s: Self)
        ensures
            s.base_dir == base_dir,
            asset_views(s.downloaded@) == sorted_out(
                asset_views(registry.assets()),
                on_disk@,
                true,
                registry.assets().len() as int,
            ),
            asset_views(s.missing@) == sorted_out(
                asset_views(registry.assets()),
                on_disk@,
                false,
                registry.assets().len() as int,
            ),
    {
        let all = registry.all();
        let ghost views = asset_views(all@);
        let mut downloaded: Vec<AssetDefinition> = Vec::new();
        let mut missing: Vec<AssetDefinition> = Vec::new();
        let mut i: usize = 0;
        assert(asset_views(downloaded@) =~= sorted_out(views, on_disk@, true, 0));
        assert(asset_views(missing@) =~= sorted_out(views, on_disk@, false, 0));
        while i < all.len()
            invariant
                i <= all@.len(),
                views == asset_views(all@),
                asset_views(downloaded@) == sorted_out(views, on_disk@, true, i as int),
                asset_views(missing@) == sorted_out(views, on_disk@, false, i as int),
            decreases all@.len() - i,
        {
            let copy = all[i].clone();
            assert(views[i as int] == copy@);
            let ghost had = asset_views(downloaded@);
            let ghost lacked = asset_views(missing@);
            if i < on_disk.len() && on_disk[i] {
                downloaded.push(copy);
                assert(asset_views(downloaded@) =~= had.push(copy@));
            } else {
                missing.push(copy);
                assert(asset_views(missing@) =~= lacked.push(copy@));
            }
            i = i + 1;
        }
        AssetStatus { downloaded, missing, base_dir }
    }

    /// Whether no asset is missing.
    pub fn is_complete(&self) -> (b: bool)
        ensures
            b == (self.missing@.len() == 0),
    {
        self.missing.len() == 0
    }

    /// The estimated size of the missing assets together, in thousands of
    /// bytes; no more than a 64-bit number holds.
    pub fn missing_size_kb(&self) -> (total: u64)
        ensures
            total == if size_sum(self.missing@, self.missing@.len() as int) > u64::MAX {
                u64::MAX as int
            } else {
                size_sum(self.missing@, self.missing@.len() as int)
            },
    {
        sum_sizes(&self.missing)
    }

    /// The summary of the status for the reader.
    pub fn summary(&self) -> (s: String)
        requires
            self.downloaded@.len() + self.missing@.len() <= u64::MAX,
        ensures
            s@ == status_summary(
                self.downloaded@.len(),
                self.missing@.len(),
                (if size_sum(self.missing@, self.missing@.len() as int) > u64::MAX {
                    u64::MAX as int
                } else {
                    size_sum(self.missing@, self.missing@.len() as int)
                }) as nat,
            ),
    {
        let missing_kb = self.missing_size_kb();
        let have = self.downloaded.len() as u64;
        let all = have + self.missing.len() as u64;
        let mut s = owned("Assets: ");
        push_decimal(&mut s, have);
        s.append("/");
        push_decimal(&mut s, all);
        s.append(" downloaded (");
        push_decimal(&mut s, missing_kb / 1000);
        s.append(".");
        push_decimal(&mut s, (missing_kb % 1000) / 100);
        s.append(" MB remaining)");
        s
    }
}

} // verus!
