//! What holds of bundles, packages and archives, whichever way they are made.
use crate::bytes::{le16, lemma_le16_read, u16_at, u32_at};
use crate::package::dlls::{
    all_ascii, copies_dll, entry_name, entry_view, is_system_dll, lemma_other_dlls_are_needed,
    lemma_system_dlls_are_not_needed, needed_dlls, needed_of, table_view, SYSTEM_DLLS,
};
use crate::package::manifests::{generate_app_manifest, generate_appx_manifest};
use crate::package::nsis::generate_nsis_script;
use crate::package::portable::{archive_entries, create_portable_zip, packed, BundleEntry};
use crate::package::resources::{
    first_outside, fixed_resources, group_icon, group_resource, icon_count, icon_resources,
    icon_updates, image_fits, image_resource, resources, Resource,
};
use crate::package::version_info::build_vs_version_info;
use crate::package::windows::{
    create_msix_package, create_nsis_installer, create_windows_bundle, finalize_windows_bundle,
    makeappx_outcome, makensis_outcome, BundlePlan, PackagePlan,
};
use crate::paths::{below, PathStyle};
use crate::process::ToolRun;
use crate::queue::job::BuildManifest;
use crate::text::{ascii_lowercase, begins_with, ends_with, texts};
use vstd::prelude::*;

verus! {

// ---------------------------------------------------------------------------
// Bundles
// ---------------------------------------------------------------------------

/// A bundle is the same whether its executable was compiled here or came with
/// the project: the executable and its manifest stand under the name of the
/// application in the directory of the bundle.
pub proof fn lemma_bundles_are_alike(
    manifest: &BuildManifest,
    exe_name: &str,
    bundle_dir: &str,
    style: PathStyle,
    made: BundlePlan,
    finalized: BundlePlan,
)
    requires
        exe_name@ == manifest.app_name@ + ".exe"@,
        call_ensures(
            create_windows_bundle,
            (manifest, Some(exe_name), bundle_dir, style),
            Ok::<BundlePlan, String>(made),
        ),
        call_ensures(finalize_windows_bundle, (manifest, bundle_dir, style), finalized),
    ensures
        made.exe_path@ == finalized.exe_path@,
        made.manifest_path@ == finalized.manifest_path@,
        made.manifest_xml@ == finalized.manifest_xml@,
        finalized.exe_path@ == below(bundle_dir@, manifest.app_name@ + ".exe"@, style),
        finalized.manifest_path@ == below(
            bundle_dir@,
            manifest.app_name@ + ".exe.manifest"@,
            style,
        ),
{
}

/// What is embedded in the executable is what stands beside it: the manifest of
/// the application, in UTF-8, and with it the version of the application.
pub proof fn lemma_the_manifest_is_embedded(
    manifest: &BuildManifest,
    bundle_dir: &str,
    style: PathStyle,
    plan: BundlePlan,
    xml: String,
    text: &str,
    version: Vec<u8>,
    list: Vec<Resource>,
)
    requires
        call_ensures(finalize_windows_bundle, (manifest, bundle_dir, style), plan),
        call_ensures(generate_app_manifest, (manifest,), xml),
        text@ == plan.manifest_xml@,
        call_ensures(build_vs_version_info, (manifest,), version),
        call_ensures(fixed_resources, (manifest, text), list),
    ensures
        plan.manifest_xml@ == xml@,
        list@.len() == 2,
        list@[0].kind == 24 && list@[0].id == 1,
        list@[0].data@ == vstd::utf8::encode_utf8(xml@),
        list@[1].kind == 16 && list@[1].id == 1,
        list@[1].data@ == version@,
{
    let views = resources(list@);
    assert(views.len() == list@.len());
    assert(views[0] == list@[0]@);
    assert(views[1] == list@[1]@);
}

// ---------------------------------------------------------------------------
// Installers and packages
// ---------------------------------------------------------------------------

/// makensis is run on the script that was written, in the bundle, and that is
/// the script for this bundle and this output.
pub proof fn lemma_the_written_script_is_compiled(
    manifest: &BuildManifest,
    bundle_dir: &str,
    output_path: &str,
    files: &Vec<String>,
    makensis: Option<String>,
    style: PathStyle,
    script: String,
    plan: PackagePlan,
)
    requires
        call_ensures(generate_nsis_script, (manifest, bundle_dir, output_path, files), script),
        call_ensures(
            create_nsis_installer,
            (manifest, bundle_dir, output_path, files, makensis, style),
            Ok::<PackagePlan, String>(plan),
        ),
    ensures
        makensis matches Some(tool) && plan.command@.program == tool@,
        plan.command@.args == seq![plan.file_path@],
        plan.file_text@ == script@,
        plan.file_path@ == below(bundle_dir@, "installer.nsi"@, style),
{
}

/// MakeAppx packs the directory that the manifest of the package was written to,
/// and writes the package where it is wanted, over an older one.
pub proof fn lemma_the_described_bundle_is_packed(
    manifest: &BuildManifest,
    bundle_dir: &str,
    output_path: &str,
    makeappx: Option<String>,
    style: PathStyle,
    xml: String,
    plan: PackagePlan,
)
    requires
        call_ensures(generate_appx_manifest, (manifest,), xml),
        call_ensures(
            create_msix_package,
            (manifest, bundle_dir, output_path, makeappx, style),
            Ok::<PackagePlan, String>(plan),
        ),
    ensures
        makeappx matches Some(tool) && plan.command@.program == tool@,
        plan.command@.args.len() == 6,
        plan.command@.args[0] == "pack"@,
        plan.command@.args[1] == "/d"@,
        plan.file_path@ == below(plan.command@.args[2], "AppxManifest.xml"@, style),
        plan.command@.args[2] == bundle_dir@,
        plan.command@.args[3] == "/p"@,
        plan.command@.args[4] == output_path@,
        plan.command@.args[5] == "/o"@,
        plan.file_text@ == xml@,
{
}

/// A packaging tool has done its work exactly where it ended with code 0; any
/// other end is an error that shows what it wrote to standard error.
pub proof fn lemma_packaging_goes_by_the_exit_code(
    run: &ToolRun,
    nsis: Result<(), String>,
    appx: Result<(), String>,
)
    requires
        call_ensures(makensis_outcome, (run,), nsis),
        call_ensures(makeappx_outcome, (run,), appx),
    ensures
        nsis is Ok <==> (*run matches ToolRun::Exited { code, .. } && code == Some(0i32)),
        appx is Ok <==> nsis is Ok,
        *run matches ToolRun::Exited { stderr, .. } ==> (nsis matches Err(e) ==> ends_with(
            e@,
            stderr@,
        )) && (appx matches Err(e) ==> ends_with(e@, stderr@)),
        *run matches ToolRun::NotRun(reason) ==> (nsis matches Err(e) ==> ends_with(
            e@,
            reason@,
        )) && (appx matches Err(e) ==> ends_with(e@, reason@)),
{
    let last = match *run {
        ToolRun::NotRun(reason) => reason@,
        ToolRun::Exited { stderr, .. } => stderr@,
    };
    if let Err(e) = nsis {
        assert(e@.skip(e@.len() - last.len()) =~= last);
    }
    if let Err(e) = appx {
        assert(e@.skip(e@.len() - last.len()) =~= last);
    }
}

// ---------------------------------------------------------------------------
// Archives
// ---------------------------------------------------------------------------

/// Whether something in the directory of a bundle belongs into an archive: it is
/// a file, and neither the script of an installer nor the manifest of an
/// executable.
pub open spec fn belongs(e: BundleEntry) -> bool {
    e.is_file && !ends_with(e.name@, ".nsi"@) && !ends_with(e.name@, ".exe.manifest"@)
}

/// Whether an entry of an archive is a file of the bundle.
pub open spec fn is_of(entry: (Seq<char>, Seq<u8>), bundle: Seq<BundleEntry>) -> bool {
    exists|k: int|
        0 <= k < bundle.len() && belongs(#[trigger] bundle[k]) && entry == (
            bundle[k].name@,
            bundle[k].data->Ok_0@,
        )
}

proof fn lemma_packed_entries(bundle: Seq<BundleEntry>)
    requires
        forall|k: int| 0 <= k < bundle.len() && belongs(#[trigger] bundle[k]) ==> bundle[k].data is Ok,
    ensures
        forall|k: int|
            0 <= k < bundle.len() && belongs(#[trigger] bundle[k]) ==> packed(bundle).contains(
                (bundle[k].name@, bundle[k].data->Ok_0@),
            ),
        forall|i: int| 0 <= i < packed(bundle).len() ==> is_of(#[trigger] packed(bundle)[i], bundle),
    decreases bundle.len(),
{
    if bundle.len() > 0 {
        let rest = bundle.drop_last();
        let e = bundle.last();
        assert forall|k: int| 0 <= k < rest.len() && belongs(#[trigger] rest[k]) implies rest[k].data
            is Ok by {
            assert(rest[k] == bundle[k]);
        }
        lemma_packed_entries(rest);
        assert(bundle[bundle.len() - 1] == e);
        assert forall|k: int| 0 <= k < bundle.len() && belongs(#[trigger] bundle[k]) implies packed(
            bundle,
        ).contains((bundle[k].name@, bundle[k].data->Ok_0@)) by {
            let entry = (bundle[k].name@, bundle[k].data->Ok_0@);
            if k < rest.len() {
                assert(rest[k] == bundle[k]);
                assert(packed(rest).contains(entry));
                let i = choose|i: int| 0 <= i < packed(rest).len() && packed(rest)[i] == entry;
                assert(packed(bundle)[i] == entry);
            } else {
                assert(packed(bundle)[packed(bundle).len() - 1] == entry);
            }
        }
        assert forall|i: int| 0 <= i < packed(bundle).len() implies is_of(
            #[trigger] packed(bundle)[i],
            bundle,
        ) by {
            if i < packed(rest).len() {
                assert(packed(bundle)[i] == packed(rest)[i]);
                let k = choose|k: int|
                    0 <= k < rest.len() && belongs(#[trigger] rest[k]) && packed(rest)[i] == (
                        rest[k].name@,
                        rest[k].data->Ok_0@,
                    );
                assert(bundle[k] == rest[k]);
            } else {
                assert(belongs(bundle[bundle.len() - 1]));
            }
        }
    }
}

/// A portable archive holds every file of the bundle under its name and with its
/// contents, and nothing else; only what the build itself needs is left out.
pub proof fn lemma_archives_hold_the_bundle(bundle: &Vec<BundleEntry>, data: Vec<u8>)
    requires
        call_ensures(create_portable_zip, (bundle,), Ok::<Vec<u8>, String>(data)),
    ensures
        forall|k: int|
            0 <= k < bundle@.len() && belongs(#[trigger] bundle@[k]) ==> bundle@[k].data is Ok
                && archive_entries(data@).contains((bundle@[k].name@, bundle@[k].data->Ok_0@)),
        forall|i: int|
            0 <= i < archive_entries(data@).len() ==> is_of(
                #[trigger] archive_entries(data@)[i],
                bundle@,
            ),
{
    lemma_packed_entries(bundle@);
}

// ---------------------------------------------------------------------------
// DLLs
// ---------------------------------------------------------------------------

/// An executable whose import table names nothing needs no DLLs, and none is
/// looked for that the table does not name.
pub proof fn lemma_only_named_dlls_are_looked_for(
    table: &Option<Vec<Option<Option<String>>>>,
    r: Vec<String>,
)
    requires
        call_ensures(needed_dlls, (table,), r),
    ensures
        table_view(*table) matches None ==> r@.len() == 0,
        table_view(*table) matches Some(t) ==> r@.len() <= t.len(),
{
    assert(texts(r@).len() == r@.len());
    if let Some(t) = table_view(*table) {
        lemma_fewer_are_needed(t);
    }
}

proof fn lemma_fewer_are_needed(table: Seq<Option<Option<Seq<char>>>>)
    ensures
        needed_of(table).len() <= table.len(),
    decreases table.len(),
{
    if table.len() > 0 {
        lemma_fewer_are_needed(table.drop_last());
    }
}

/// Whether an import table has an entry with a name that can be read.
pub open spec fn names_dll(table: Seq<Option<Option<String>>>, name: Seq<char>) -> bool {
    exists|i: int| names_dll_at(table, name, i)
}

/// Whether the entry of an import table at a place has that name.
pub open spec fn names_dll_at(
    table: Seq<Option<Option<String>>>,
    name: Seq<char>,
    i: int,
) -> bool {
    0 <= i < table.len() && table[i] is Some && table[i]->Some_0 is Some
        && table[i]->Some_0->Some_0@ == name
}

proof fn lemma_needed_is_named(table: Seq<Option<Option<Seq<char>>>>, k: int) -> (i: int)
    requires
        0 <= k < needed_of(table).len(),
    ensures
        0 <= i < table.len(),
        entry_name(table[i]) == Some(needed_of(table)[k]),
    decreases table.len(),
{
    let rest = table.drop_last();
    if k < needed_of(rest).len() {
        let i = lemma_needed_is_named(rest, k);
        assert(table[i] == rest[i]);
        i
    } else {
        table.len() - 1
    }
}

/// A DLL that the import table names is looked for exactly if it does not come
/// with Windows, and nothing else is looked for but what the table names; a name
/// that cannot be read counts as empty.
pub proof fn lemma_named_dlls_are_looked_for(
    table: &Option<Vec<Option<Option<String>>>>,
    r: Vec<String>,
    name: &str,
    system: bool,
)
    requires
        call_ensures(needed_dlls, (table,), r),
        call_ensures(is_system_dll, (name,), system),
        name@.len() > 0,
    ensures
        texts(r@).contains(name@) <==> !system && (*table matches Some(t) && names_dll(
            t@,
            name@,
        )),
{
    reveal_strlit("");
    if let Some(t) = *table {
        let all = table_view(*table)->Some_0;
        assert forall|i: int| 0 <= i < all.len() implies #[trigger] all[i] == entry_view(
            t@[i],
        ) by {}
        if texts(r@).contains(name@) {
            let k = choose|k: int| 0 <= k < texts(r@).len() && texts(r@)[k] == name@;
            lemma_system_dlls_are_not_needed(all, k);
            let i = lemma_needed_is_named(all, k);
            assert(names_dll_at(t@, name@, i));
        }
        if !system && names_dll(t@, name@) {
            let i = choose|i: int| names_dll_at(t@, name@, i);
            assert(all[i] == entry_view(t@[i]));
            lemma_other_dlls_are_needed(all, i);
        }
    }
}

/// Whether a DLL comes with Windows does not depend on the case of its name, and
/// whatever begins as the API sets do comes with Windows.
pub proof fn lemma_the_case_of_a_dll_does_not_matter(
    a: &str,
    b: &str,
    a_system: bool,
    b_system: bool,
)
    requires
        all_ascii(a@),
        all_ascii(b@),
        call_ensures(is_system_dll, (a,), a_system),
        call_ensures(is_system_dll, (b,), b_system),
    ensures
        ascii_lowercase(a@) == ascii_lowercase(b@) ==> a_system == b_system,
        begins_with(ascii_lowercase(a@), "api-ms-win-"@) ==> a_system,
        forall|i: int|
            0 <= i < SYSTEM_DLLS@.len() && ascii_lowercase(a@) == #[trigger] SYSTEM_DLLS@[i]@
                ==> a_system,
        a_system && !begins_with(ascii_lowercase(a@), "api-ms-win-"@) ==> exists|i: int|
            0 <= i < SYSTEM_DLLS@.len() && ascii_lowercase(a@) == #[trigger] SYSTEM_DLLS@[i]@,
{
}

/// A DLL is copied exactly if it stands beside the binary and the bundle does not
/// hold it yet.
pub proof fn lemma_dlls_are_copied_once(beside: bool, held: bool, r: bool)
    requires
        call_ensures(copies_dll, (beside, held), r),
    ensures
        held ==> !r,
        !beside ==> !r,
        beside && !held ==> r,
{
}

// ---------------------------------------------------------------------------
// Icons
// ---------------------------------------------------------------------------

proof fn lemma_group_entry(ico: Seq<u8>, n: nat, i: int)
    requires
        0 <= i < n,
        6 + 16 * n <= ico.len(),
        n <= 65535,
    ensures
        group_icon(ico, n).len() == 6 + 14 * n,
        group_icon(ico, n).subrange(6 + 14 * i, 18 + 14 * i) == ico.subrange(
            6 + 16 * i,
            18 + 16 * i,
        ),
        u16_at(group_icon(ico, n), 18 + 14 * i) == i + 1,
    decreases n,
{
    let m = (n - 1) as nat;
    lemma_group_len(ico, m);
    let before = group_icon(ico, m);
    let at = 6int + 16 * m;
    let all = group_icon(ico, n);
    assert(all == before + ico.subrange(at, at + 12) + le16(n));
    if i == m {
        assert(all.subrange(6 + 14 * i, 18 + 14 * i) =~= ico.subrange(6 + 16 * i, 18 + 16 * i));
        assert(all.subrange(18 + 14 * i, 18 + 14 * i + 2) =~= le16(n));
        lemma_le16_read(all, 18 + 14 * i, n);
    } else {
        lemma_group_entry(ico, m, i);
        assert(all.subrange(6 + 14 * i, 18 + 14 * i) =~= before.subrange(6 + 14 * i, 18 + 14 * i));
        assert(all[18 + 14 * i] == before[18 + 14 * i]);
        assert(all[18 + 14 * i + 1] == before[18 + 14 * i + 1]);
    }
}

proof fn lemma_group_len(ico: Seq<u8>, n: nat)
    requires
        6 + 16 * n <= ico.len(),
    ensures
        group_icon(ico, n).len() == 6 + 14 * n,
        group_icon(ico, n).subrange(0, 6) == ico.subrange(0, 6),
    decreases n,
{
    if n > 0 {
        lemma_group_len(ico, (n - 1) as nat);
        assert(group_icon(ico, n).subrange(0, 6) =~= group_icon(ico, (n - 1) as nat).subrange(
            0,
            6,
        ));
    } else {
        assert(ico.subrange(0, 6).subrange(0, 6) =~= ico.subrange(0, 6));
    }
}

/// Whether a group lists an image as the icon does, under the number of the
/// resource that holds just the bytes which the icon has for it.
pub open spec fn lists(group: Seq<u8>, ico: Seq<u8>, i: int, image: Resource) -> bool {
    let from = u32_at(ico, 6 + 16 * i + 12) as int;
    let len = u32_at(ico, 6 + 16 * i + 8) as int;
    &&& group.subrange(6 + 14 * i, 18 + 14 * i) == ico.subrange(6 + 16 * i, 18 + 16 * i)
    &&& u16_at(group, 18 + 14 * i) == image.id
    &&& image.kind == 3
    &&& from + len <= ico.len()
    &&& image.data@ == ico.subrange(from, from + len)
}

/// Windows finds each image of an icon through its group: the group lists the
/// images as the icon does, each with the number of the resource that holds its
/// bytes. No two images have the same number.
pub proof fn lemma_groups_name_the_images(ico: &[u8], r: (Vec<Resource>, Option<String>))
    requires
        call_ensures(icon_resources, (ico,), r),
        r.1 is None,
    ensures
        r.0@.len() == u16_at(ico@, 4) + 1,
        r.0@[0].kind == 14,
        r.0@[0].data@.len() == 6 + 14 * u16_at(ico@, 4),
        r.0@[0].data@.subrange(0, 6) == ico@.subrange(0, 6),
        forall|j: int|
            1 <= j < r.0@.len() ==> lists(r.0@[0].data@, ico@, j - 1, #[trigger] r.0@[j])
                && r.0@[j].id == j,
{
    let n = icon_count(ico@);
    let views = resources(r.0@);
    assert(views.len() == r.0@.len());
    assert(views[0] == r.0@[0]@);
    lemma_group_len(ico@, n);
    lemma_outside_bound(ico@, 0, n);
    assert(views == icon_updates(ico@));
    assert(views[0] == group_resource(ico@));
    assert forall|j: int| 1 <= j < r.0@.len() implies lists(
        r.0@[0].data@,
        ico@,
        j - 1,
        #[trigger] r.0@[j],
    ) && r.0@[j].id == j by {
        assert(views[j] == r.0@[j]@);
        assert(views[j] == image_resource(ico@, j - 1));
        lemma_group_entry(ico@, n, j - 1);
        lemma_inside(ico@, 0, n, j - 1);
    }
}

proof fn lemma_outside_bound(ico: Seq<u8>, i: nat, count: nat)
    requires
        i <= count,
    ensures
        i <= first_outside(ico, i, count) <= count,
    decreases count - i,
{
    if i < count && image_fits(ico, i as int) {
        lemma_outside_bound(ico, i + 1, count);
    }
}

proof fn lemma_inside(ico: Seq<u8>, i: nat, count: nat, k: int)
    requires
        i <= k < count,
        first_outside(ico, i, count) == count,
    ensures
        image_fits(ico, k),
    decreases count - i,
{
    if i < k {
        lemma_inside(ico, i + 1, count, k);
    }
}

} // verus!
