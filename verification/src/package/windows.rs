//! Windows bundles, installers and MSIX packages: what is written, and which
//! tools are run on it.
use crate::package::manifests::{
    app_manifest, appx_manifest, generate_app_manifest, generate_appx_manifest,
};
use crate::package::nsis::{generate_nsis_script, nsis_script};
use crate::paths::{below, join_path, PathStyle};
use crate::process::{code_text, is_success, shown_code, ToolCommand, ToolRun};
use crate::queue::job::BuildManifest;
use crate::text::{cat2, push_text, signed_decimal, texts, verdict};
use vstd::prelude::*;
use vstd::string::*;

verus! {

/// A bundle to make: where the executable goes, and the application manifest
/// that is written beside it and embedded in it.
pub struct BundlePlan {
    pub exe_path: String,
    pub manifest_path: String,
    pub manifest_xml: String,
}

impl BundlePlan {
    /// The bundle holds the executable under that name, and the manifest of the
    /// application under the application's name.
    pub open spec fn is_bundle_of(
        self,
        m: BuildManifest,
        exe_name: Seq<char>,
        bundle_dir: Seq<char>,
        style: PathStyle,
    ) -> bool {
        &&& self.exe_path@ == below(bundle_dir, exe_name, style)
        &&& self.manifest_path@ == below(bundle_dir, m.app_name@ + ".exe.manifest"@, style)
        &&& self.manifest_xml@ == app_manifest(m)
    }
}

/// A Windows application bundle directory containing the .exe. Without a file
/// name the binary's path is invalid.
pub fn create_windows_bundle(
    manifest: &BuildManifest,
    exe_name: Option<&str>,
    bundle_dir: &str,
    style: PathStyle,
) -> (r: Result<BundlePlan, String>)
    ensures
        match exe_name {
            Some(name) => r matches Ok(plan) && plan.is_bundle_of(
                *manifest,
                name@,
                bundle_dir@,
                style,
            ),
            None => r matches Err(e) && e@ == "Invalid binary path"@,
        },
{
    match exe_name {
        Some(name) => Ok(
            BundlePlan {
                exe_path: join_path(bundle_dir, name, style),
                manifest_path: join_path(
                    bundle_dir,
                    &cat2(&manifest.app_name, ".exe.manifest"),
                    style,
                ),
                manifest_xml: generate_app_manifest(manifest),
            },
        ),
        None => Err("Invalid binary path".to_owned()),
    }
}

/// The bundle of an executable that already stands in its directory under the
/// application's name: what is left is the manifest, and the resources.
pub fn finalize_windows_bundle(manifest: &BuildManifest, bundle_dir: &str, style: PathStyle) -> (r:
    BundlePlan)
    ensures
        r.is_bundle_of(*manifest, manifest.app_name@ + ".exe"@, bundle_dir@, style),
{
    BundlePlan {
        exe_path: join_path(bundle_dir, &cat2(&manifest.app_name, ".exe"), style),
        manifest_path: join_path(bundle_dir, &cat2(&manifest.app_name, ".exe.manifest"), style),
        manifest_xml: generate_app_manifest(manifest),
    }
}

/// A file to write, and the tool that is then run.
pub struct PackagePlan {
    pub file_path: String,
    pub file_text: String,
    pub command: ToolCommand,
}

/// Create an NSIS installer script and invoke makensis.exe.
pub fn create_nsis_installer(
    manifest: &BuildManifest,
    bundle_dir: &str,
    output_path: &str,
    files: &Vec<String>,
    makensis: Option<String>,
    style: PathStyle,
) -> (r: Result<PackagePlan, String>)
    ensures
        match makensis {
            Some(tool) => r matches Ok(plan) && {
                &&& plan.file_path@ == below(bundle_dir@, "installer.nsi"@, style)
                &&& plan.file_text@ == nsis_script(
                    *manifest,
                    bundle_dir@,
                    output_path@,
                    texts(files@),
                )
                &&& plan.command@.program == tool@
                &&& plan.command@.args == seq![below(bundle_dir@, "installer.nsi"@, style)]
                &&& plan.command@.env.len() == 0
            },
            None => r matches Err(e) && e@
                == "makensis.exe not found. Install NSIS or set PERRY_BUILD_NSIS_PATH."@,
        },
{
    match makensis {
        Some(tool) => {
            let file_path = join_path(bundle_dir, "installer.nsi", style);
            let file_text = generate_nsis_script(manifest, bundle_dir, output_path, files);
            let mut args: Vec<String> = Vec::new();
            push_text(&mut args, &file_path);
            let command = ToolCommand { program: tool, args, env: Vec::new() };
            assert(command@.args =~= seq![below(bundle_dir@, "installer.nsi"@, style)]);
            Ok(PackagePlan { file_path, file_text, command })
        },
        None => Err(
            "makensis.exe not found. Install NSIS or set PERRY_BUILD_NSIS_PATH.".to_owned(),
        ),
    }
}

/// What comes of running makensis.
pub open spec fn makensis_verdict(run: ToolRun) -> Result<(), Seq<char>> {
    match run {
        ToolRun::NotRun(e) => Err("Failed to run makensis: "@ + e@),
        ToolRun::Exited { code, stdout, stderr } => if code == Some(0i32) {
            Ok(())
        } else {
            Err(
                "makensis failed (exit "@ + signed_decimal(shown_code(code)) + "):\nstdout: "@
                    + stdout@ + "\nstderr: "@ + stderr@,
            )
        },
    }
}

/// What comes of running makensis.
pub fn makensis_outcome(run: &ToolRun) -> (r: Result<(), String>)
    ensures
        verdict(r) == makensis_verdict(*run),
{
    match run {
        ToolRun::NotRun(e) => Err(cat2("Failed to run makensis: ", e)),
        ToolRun::Exited { code, stdout, stderr } => {
            if is_success(*code) {
                Ok(())
            } else {
                let mut s = "makensis failed (exit ".to_owned();
                s.append(&code_text(*code));
                s.append("):\nstdout: ");
                s.append(stdout);
                s.append("\nstderr: ");
                s.append(stderr);
                Err(s)
            }
        },
    }
}

/// Create an MSIX package using MakeAppx.exe.
pub fn create_msix_package(
    manifest: &BuildManifest,
    bundle_dir: &str,
    output_path: &str,
    makeappx: Option<String>,
    style: PathStyle,
) -> (r: Result<PackagePlan, String>)
    ensures
        match makeappx {
            Some(tool) => r matches Ok(plan) && {
                &&& plan.file_path@ == below(bundle_dir@, "AppxManifest.xml"@, style)
                &&& plan.file_text@ == appx_manifest(*manifest)
                &&& plan.command@.program == tool@
                &&& plan.command@.args == seq![
                    "pack"@,
                    "/d"@,
                    bundle_dir@,
                    "/p"@,
                    output_path@,
                    "/o"@,
                ]
                &&& plan.command@.env.len() == 0
            },
            None => r matches Err(e) && e@ == "MakeAppx.exe not found. Install Windows SDK."@,
        },
{
    match makeappx {
        Some(tool) => {
            let mut args: Vec<String> = Vec::new();
            push_text(&mut args, "pack");
            push_text(&mut args, "/d");
            push_text(&mut args, bundle_dir);
            push_text(&mut args, "/p");
            push_text(&mut args, output_path);
            push_text(&mut args, "/o");
            let command = ToolCommand { program: tool, args, env: Vec::new() };
            assert(command@.args =~= seq![
                "pack"@,
                "/d"@,
                bundle_dir@,
                "/p"@,
                output_path@,
                "/o"@,
            ]);
            Ok(
                PackagePlan {
                    file_path: join_path(bundle_dir, "AppxManifest.xml", style),
                    file_text: generate_appx_manifest(manifest),
                    command,
                },
            )
        },
        None => Err("MakeAppx.exe not found. Install Windows SDK.".to_owned()),
    }
}

/// What comes of running MakeAppx.
pub open spec fn makeappx_verdict(run: ToolRun) -> Result<(), Seq<char>> {
    match run {
        ToolRun::NotRun(e) => Err("Failed to run MakeAppx: "@ + e@),
        ToolRun::Exited { code, stdout, stderr } => if code == Some(0i32) {
            Ok(())
        } else {
            Err(
                "MakeAppx failed (exit "@ + signed_decimal(shown_code(code)) + "): "@ + stderr@,
            )
        },
    }
}

/// What comes of running MakeAppx.
pub fn makeappx_outcome(run: &ToolRun) -> (r: Result<(), String>)
    ensures
        verdict(r) == makeappx_verdict(*run),
{
    match run {
        ToolRun::NotRun(e) => Err(cat2("Failed to run MakeAppx: ", e)),
        ToolRun::Exited { code, stdout, stderr } => {
            if is_success(*code) {
                Ok(())
            } else {
                let mut s = "MakeAppx failed (exit ".to_owned();
                s.append(&code_text(*code));
                s.append("): ");
                s.append(stderr);
                Err(s)
            }
        },
    }
}

} // verus!
