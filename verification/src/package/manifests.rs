//! The XML that describes an application to Windows.
use crate::build::validate::{escape_xml, xml_escaped};
use crate::queue::job::BuildManifest;
use crate::text::{or_text, text_or};
use vstd::prelude::*;
use vstd::string::*;

verus! {

/// The application manifest for an identity, a privilege level and a DPI mode,
/// each as XML text.
pub open spec fn app_manifest_of(
    bundle_id: Seq<char>,
    version: Seq<char>,
    uac_level: Seq<char>,
    dpi_aware: Seq<char>,
) -> Seq<char> {
    r#"<?xml version="1.0" encoding="UTF-8" standalone="yes"?>
<assembly xmlns="urn:schemas-microsoft-com:asm.v1" manifestVersion="1.0">
  <assemblyIdentity type="win32" name=""#@ + bundle_id + r#"" version=""#@ + version + r#".0" />
  <trustInfo xmlns="urn:schemas-microsoft-com:asm.v3">
    <security>
      <requestedPrivileges>
        <requestedExecutionLevel level=""#@ + uac_level + r#"" uiAccess="false" />
      </requestedPrivileges>
    </security>
  </trustInfo>
  <compatibility xmlns="urn:schemas-microsoft-com:compatibility.v1">
    <application>
      <!-- Windows 10 / 11 -->
      <supportedOS Id="{8e0f7a12-bfb3-4fe8-b9a5-48fd50a15a9a}" />
      <!-- Windows 8.1 -->
      <supportedOS Id="{1f676c76-80e1-4239-95bb-83d0f6d0da78}" />
      <!-- Windows 8 -->
      <supportedOS Id="{4a2f28e3-53b9-4441-ba9c-d69d4a4a6e38}" />
    </application>
  </compatibility>
  <application xmlns="urn:schemas-microsoft-com:asm.v3">
    <windowsSettings>
      <dpiAware xmlns="http://schemas.microsoft.com/SMI/2005/WindowsSettings">"#@ + dpi_aware + r#"</dpiAware>
      <dpiAwareness xmlns="http://schemas.microsoft.com/SMI/2016/WindowsSettings">PerMonitorV2</dpiAwareness>
    </windowsSettings>
  </application>
</assembly>"#@
}

/// The application manifest: privileges as the invoker and DPI awareness per
/// monitor unless the manifest says otherwise.
pub open spec fn app_manifest(m: BuildManifest) -> Seq<char> {
    app_manifest_of(
        xml_escaped(m.bundle_id@),
        xml_escaped(m.version@),
        xml_escaped(or_text(m.windows_uac_level, "asInvoker"@)),
        xml_escaped(or_text(m.windows_dpi_aware, "true/pm"@)),
    )
}

/// Generate a Windows application manifest XML with UAC level, DPI awareness, and OS compatibility.
pub fn generate_app_manifest(manifest: &BuildManifest) -> (s: String)
    ensures
        s@ == app_manifest(*manifest),
{
    let bundle_id = escape_xml(&manifest.bundle_id);
    let version = escape_xml(&manifest.version);
    let uac_level = escape_xml(text_or(&manifest.windows_uac_level, "asInvoker"));
    let dpi_aware = escape_xml(text_or(&manifest.windows_dpi_aware, "true/pm"));
    let mut s = r#"<?xml version="1.0" encoding="UTF-8" standalone="yes"?>
<assembly xmlns="urn:schemas-microsoft-com:asm.v1" manifestVersion="1.0">
  <assemblyIdentity type="win32" name=""#.to_owned();
    s.append(&bundle_id);
    s.append(r#"" version=""#);
    s.append(&version);
    s.append(r#".0" />
  <trustInfo xmlns="urn:schemas-microsoft-com:asm.v3">
    <security>
      <requestedPrivileges>
        <requestedExecutionLevel level=""#);
    s.append(&uac_level);
    s.append(r#"" uiAccess="false" />
      </requestedPrivileges>
    </security>
  </trustInfo>
  <compatibility xmlns="urn:schemas-microsoft-com:compatibility.v1">
    <application>
      <!-- Windows 10 / 11 -->
      <supportedOS Id="{8e0f7a12-bfb3-4fe8-b9a5-48fd50a15a9a}" />
      <!-- Windows 8.1 -->
      <supportedOS Id="{1f676c76-80e1-4239-95bb-83d0f6d0da78}" />
      <!-- Windows 8 -->
      <supportedOS Id="{4a2f28e3-53b9-4441-ba9c-d69d4a4a6e38}" />
    </application>
  </compatibility>
  <application xmlns="urn:schemas-microsoft-com:asm.v3">
    <windowsSettings>
      <dpiAware xmlns="http://schemas.microsoft.com/SMI/2005/WindowsSettings">"#);
    s.append(&dpi_aware);
    s.append(r#"</dpiAware>
      <dpiAwareness xmlns="http://schemas.microsoft.com/SMI/2016/WindowsSettings">PerMonitorV2</dpiAwareness>
    </windowsSettings>
  </application>
</assembly>"#);
    s
}

/// The package manifest for an identity, a name, a publisher and a description,
/// each as XML text.
pub open spec fn appx_manifest_of(
    bundle_id: Seq<char>,
    app_name: Seq<char>,
    version: Seq<char>,
    publisher: Seq<char>,
    description: Seq<char>,
) -> Seq<char> {
    r#"<?xml version="1.0" encoding="utf-8"?>
<Package xmlns="http://schemas.microsoft.com/appx/manifest/foundation/windows10"
         xmlns:uap="http://schemas.microsoft.com/appx/manifest/uap/windows10"
         xmlns:rescap="http://schemas.microsoft.com/appx/manifest/foundation/windows10/restrictedcapabilities">
  <Identity Name=""#@ + bundle_id + r#"" Version=""#@ + version + r#".0" Publisher=""#@ + publisher + r#"" />
  <Properties>
    <DisplayName>"#@ + app_name + r#"</DisplayName>
    <PublisherDisplayName>"#@ + publisher + r#"</PublisherDisplayName>
    <Description>"#@ + description + r#"</Description>
    <Logo>app.ico</Logo>
  </Properties>
  <Resources>
    <Resource Language="en-us" />
  </Resources>
  <Dependencies>
    <TargetDeviceFamily Name="Windows.Desktop" MinVersion="10.0.17763.0" MaxVersionTested="10.0.22621.0" />
  </Dependencies>
  <Applications>
    <Application Id="App" Executable=""#@ + app_name + r#".exe" EntryPoint="Windows.FullTrustApplication">
      <uap:VisualElements DisplayName=""#@ + app_name + r#"" Description=""#@ + description + r#""
                          BackgroundColor="transparent" Square150x150Logo="app.ico" Square44x44Logo="app.ico" />
    </Application>
  </Applications>
</Package>"#@
}

/// The package manifest: published by an unknown company and described by the
/// application's name unless the manifest says otherwise.
pub open spec fn appx_manifest(m: BuildManifest) -> Seq<char> {
    appx_manifest_of(
        xml_escaped(m.bundle_id@),
        xml_escaped(m.app_name@),
        xml_escaped(m.version@),
        xml_escaped(or_text(m.windows_company_name, "CN=Unknown"@)),
        xml_escaped(or_text(m.windows_file_description, m.app_name@)),
    )
}

/// Generate the AppxManifest.xml of an MSIX package.
pub fn generate_appx_manifest(manifest: &BuildManifest) -> (s: String)
    ensures
        s@ == appx_manifest(*manifest),
{
    let bundle_id = escape_xml(&manifest.bundle_id);
    let app_name = escape_xml(&manifest.app_name);
    let version = escape_xml(&manifest.version);
    let publisher = escape_xml(text_or(&manifest.windows_company_name, "CN=Unknown"));
    let description = escape_xml(text_or(&manifest.windows_file_description, &manifest.app_name));
    let mut s = r#"<?xml version="1.0" encoding="utf-8"?>
<Package xmlns="http://schemas.microsoft.com/appx/manifest/foundation/windows10"
         xmlns:uap="http://schemas.microsoft.com/appx/manifest/uap/windows10"
         xmlns:rescap="http://schemas.microsoft.com/appx/manifest/foundation/windows10/restrictedcapabilities">
  <Identity Name=""#.to_owned();
    s.append(&bundle_id);
    s.append(r#"" Version=""#);
    s.append(&version);
    s.append(r#".0" Publisher=""#);
    s.append(&publisher);
    s.append(r#"" />
  <Properties>
    <DisplayName>"#);
    s.append(&app_name);
    s.append(r#"</DisplayName>
    <PublisherDisplayName>"#);
    s.append(&publisher);
    s.append(r#"</PublisherDisplayName>
    <Description>"#);
    s.append(&description);
    s.append(r#"</Description>
    <Logo>app.ico</Logo>
  </Properties>
  <Resources>
    <Resource Language="en-us" />
  </Resources>
  <Dependencies>
    <TargetDeviceFamily Name="Windows.Desktop" MinVersion="10.0.17763.0" MaxVersionTested="10.0.22621.0" />
  </Dependencies>
  <Applications>
    <Application Id="App" Executable=""#);
    s.append(&app_name);
    s.append(r#".exe" EntryPoint="Windows.FullTrustApplication">
      <uap:VisualElements DisplayName=""#);
    s.append(&app_name);
    s.append(r#"" Description=""#);
    s.append(&description);
    s.append(r#""
                          BackgroundColor="transparent" Square150x150Logo="app.ico" Square44x44Logo="app.ico" />
    </Application>
  </Applications>
</Package>"#);
    s
}

} // verus!
