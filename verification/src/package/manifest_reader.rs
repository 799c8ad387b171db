//! What the XML that describes an application says of it.
use crate::build::validate::{lemma_xml_escape_is_undone, xml_escaped, xml_read};
use crate::package::manifests::{
    app_manifest_of, appx_manifest_of, generate_app_manifest, generate_appx_manifest,
};
use crate::package::nsis::{has_part, part_at};
use crate::queue::job::BuildManifest;
use crate::text::or_text;
use vstd::prelude::*;

verus! {

// ---------------------------------------------------------------------------
// Parts of a text that grows
// ---------------------------------------------------------------------------

/// Whether a text ends with a part.
pub open spec fn ends_in(s: Seq<char>, part: Seq<char>) -> bool {
    part.len() <= s.len() && s.skip(s.len() - part.len()) == part
}

/// What stands in a text stands in a longer one.
proof fn lemma_parts_stay(s: Seq<char>, more: Seq<char>)
    ensures
        forall|part: Seq<char>| has_part(s, part) ==> #[trigger] has_part(s + more, part),
{
    assert forall|part: Seq<char>| has_part(s, part) implies #[trigger] has_part(
        s + more,
        part,
    ) by {
        let i = choose|i: int| part_at(s, part, i);
        assert((s + more).subrange(i, i + part.len()) =~= s.subrange(i, i + part.len()));
        assert(part_at(s + more, part, i));
    }
}

/// A part begins at the end of a piece.
proof fn lemma_opens(s: Seq<char>, piece: Seq<char>, part: Seq<char>)
    requires
        ends_in(piece, part),
    ensures
        ends_in(s + piece, part),
{
    assert((s + piece).skip((s + piece).len() - part.len()) =~= piece.skip(
        piece.len() - part.len(),
    ));
}

/// A part goes on with a whole piece.
proof fn lemma_goes_on(s: Seq<char>, part: Seq<char>, piece: Seq<char>)
    requires
        ends_in(s, part),
    ensures
        ends_in(s + piece, part + piece),
{
    assert((s + piece).skip(s.len() - part.len()) =~= s.skip(s.len() - part.len()) + piece);
}

/// A part ends at the beginning of a piece.
proof fn lemma_closes(s: Seq<char>, part: Seq<char>, piece: Seq<char>, end: Seq<char>)
    requires
        ends_in(s, part),
        end.len() <= piece.len(),
        piece.take(end.len() as int) == end,
    ensures
        has_part(s + piece, part + end),
{
    let i = s.len() - part.len();
    let whole = part + end;
    assert((s + piece).subrange(i, i + whole.len()) =~= s.skip(i) + piece.take(end.len() as int));
    assert(part_at(s + piece, whole, i));
}

// ---------------------------------------------------------------------------
// The pieces of the XML
// ---------------------------------------------------------------------------

/// What stands in an application manifest.
proof fn lemma_parts_of_app_manifest(
    bundle_id: Seq<char>,
    version: Seq<char>,
    uac_level: Seq<char>,
    dpi_aware: Seq<char>,
)
    ensures
        ({
            let xml = app_manifest_of(bundle_id, version, uac_level, dpi_aware);
            &&& has_part(
                xml,
                r#"<assemblyIdentity type="win32" name=""#@ + bundle_id + r#"" version=""#@ + version + r#".0" />"#@,
            )
            &&& has_part(
                xml,
                r#"<requestedExecutionLevel level=""#@ + uac_level + r#"" uiAccess="false" />"#@,
            )
            &&& has_part(
                xml,
                r#"<dpiAware xmlns="http://schemas.microsoft.com/SMI/2005/WindowsSettings">"#@ + dpi_aware + r#"</dpiAware>"#@,
            )
        }),
{
    reveal_strlit(r#"<?xml version="1.0" encoding="UTF-8" standalone="yes"?>
<assembly xmlns="urn:schemas-microsoft-com:asm.v1" manifestVersion="1.0">
  <assemblyIdentity type="win32" name=""#);
    let piece0 = r#"<?xml version="1.0" encoding="UTF-8" standalone="yes"?>
<assembly xmlns="urn:schemas-microsoft-com:asm.v1" manifestVersion="1.0">
  <assemblyIdentity type="win32" name=""#@;
    reveal_strlit(r#"" version=""#);
    let piece1 = r#"" version=""#@;
    reveal_strlit(r#".0" />
  <trustInfo xmlns="urn:schemas-microsoft-com:asm.v3">
    <security>
      <requestedPrivileges>
        <requestedExecutionLevel level=""#);
    let piece2 = r#".0" />
  <trustInfo xmlns="urn:schemas-microsoft-com:asm.v3">
    <security>
      <requestedPrivileges>
        <requestedExecutionLevel level=""#@;
    reveal_strlit(r#"" uiAccess="false" />
      </requestedPrivileges>
    </security>
  </trustInfo>
  <compatibility xmlns="urn:schemas-microsoft-com:compatibility.v1">
    <application>
      <!-- Windows 10 / 11 -->
      <supportedOS Id="{8e0f7a12-bfb3-4fe8-b9a5-48fd50a15a9a}" />
      <!-- Windows 8.1 -->
      <supportedOS Id="{1f676c76-80e1-4239-95bb-83d0f6d0da78}" />
      <!-- Windows 8 -->
      <supportedOS Id="{4a2f28e3-53b9-4441-ba9c-d69d4a4a6e38}" />
    </application>
  </compatibility>
  <application xmlns="urn:schemas-microsoft-com:asm.v3">
    <windowsSettings>
      <dpiAware xmlns="http://schemas.microsoft.com/SMI/2005/WindowsSettings">"#);
    let piece3 = r#"" uiAccess="false" />
      </requestedPrivileges>
    </security>
  </trustInfo>
  <compatibility xmlns="urn:schemas-microsoft-com:compatibility.v1">
    <application>
      <!-- Windows 10 / 11 -->
      <supportedOS Id="{8e0f7a12-bfb3-4fe8-b9a5-48fd50a15a9a}" />
      <!-- Windows 8.1 -->
      <supportedOS Id="{1f676c76-80e1-4239-95bb-83d0f6d0da78}" />
      <!-- Windows 8 -->
      <supportedOS Id="{4a2f28e3-53b9-4441-ba9c-d69d4a4a6e38}" />
    </application>
  </compatibility>
  <application xmlns="urn:schemas-microsoft-com:asm.v3">
    <windowsSettings>
      <dpiAware xmlns="http://schemas.microsoft.com/SMI/2005/WindowsSettings">"#@;
    reveal_strlit(r#"</dpiAware>
      <dpiAwareness xmlns="http://schemas.microsoft.com/SMI/2016/WindowsSettings">PerMonitorV2</dpiAwareness>
    </windowsSettings>
  </application>
</assembly>"#);
    let piece4 = r#"</dpiAware>
      <dpiAwareness xmlns="http://schemas.microsoft.com/SMI/2016/WindowsSettings">PerMonitorV2</dpiAwareness>
    </windowsSettings>
  </application>
</assembly>"#@;
    reveal_strlit(r#"" uiAccess="false" />"#);
    reveal_strlit(r#".0" />"#);
    reveal_strlit(r#"</dpiAware>"#);
    reveal_strlit(r#"<assemblyIdentity type="win32" name=""#);
    reveal_strlit(r#"<dpiAware xmlns="http://schemas.microsoft.com/SMI/2005/WindowsSettings">"#);
    reveal_strlit(r#"<requestedExecutionLevel level=""#);
    let s0 = Seq::<char>::empty();
    let s1 = s0 + piece0;
    lemma_parts_stay(s0, piece0);
    assert(piece0.skip(piece0.len() - 37) =~= r#"<assemblyIdentity type="win32" name=""#@);
    lemma_opens(s0, piece0, r#"<assemblyIdentity type="win32" name=""#@);
    let s2 = s1 + bundle_id;
    lemma_parts_stay(s1, bundle_id);
    lemma_goes_on(s1, r#"<assemblyIdentity type="win32" name=""#@, bundle_id);
    let s3 = s2 + piece1;
    lemma_parts_stay(s2, piece1);
    lemma_goes_on(s2, r#"<assemblyIdentity type="win32" name=""#@ + bundle_id, piece1);
    let s4 = s3 + version;
    lemma_parts_stay(s3, version);
    lemma_goes_on(s3, r#"<assemblyIdentity type="win32" name=""#@ + bundle_id + r#"" version=""#@, version);
    let s5 = s4 + piece2;
    lemma_parts_stay(s4, piece2);
    assert(piece2.take(6) =~= r#".0" />"#@);
    lemma_closes(s4, r#"<assemblyIdentity type="win32" name=""#@ + bundle_id + r#"" version=""#@ + version, piece2, r#".0" />"#@);
    assert(piece2.skip(piece2.len() - 32) =~= r#"<requestedExecutionLevel level=""#@);
    lemma_opens(s4, piece2, r#"<requestedExecutionLevel level=""#@);
    let s6 = s5 + uac_level;
    lemma_parts_stay(s5, uac_level);
    lemma_goes_on(s5, r#"<requestedExecutionLevel level=""#@, uac_level);
    let s7 = s6 + piece3;
    lemma_parts_stay(s6, piece3);
    assert(piece3.take(21) =~= r#"" uiAccess="false" />"#@);
    lemma_closes(s6, r#"<requestedExecutionLevel level=""#@ + uac_level, piece3, r#"" uiAccess="false" />"#@);
    assert(piece3.skip(piece3.len() - 72) =~= r#"<dpiAware xmlns="http://schemas.microsoft.com/SMI/2005/WindowsSettings">"#@);
    lemma_opens(s6, piece3, r#"<dpiAware xmlns="http://schemas.microsoft.com/SMI/2005/WindowsSettings">"#@);
    let s8 = s7 + dpi_aware;
    lemma_parts_stay(s7, dpi_aware);
    lemma_goes_on(s7, r#"<dpiAware xmlns="http://schemas.microsoft.com/SMI/2005/WindowsSettings">"#@, dpi_aware);
    let s9 = s8 + piece4;
    lemma_parts_stay(s8, piece4);
    assert(piece4.take(11) =~= r#"</dpiAware>"#@);
    lemma_closes(s8, r#"<dpiAware xmlns="http://schemas.microsoft.com/SMI/2005/WindowsSettings">"#@ + dpi_aware, piece4, r#"</dpiAware>"#@);
    assert(s9 =~= app_manifest_of(bundle_id, version, uac_level, dpi_aware));
}

/// What stands in a package manifest.
proof fn lemma_parts_of_appx_manifest(
    bundle_id: Seq<char>,
    app_name: Seq<char>,
    version: Seq<char>,
    publisher: Seq<char>,
    description: Seq<char>,
)
    ensures
        ({
            let xml = appx_manifest_of(bundle_id, app_name, version, publisher, description);
            &&& has_part(
                xml,
                r#"<Identity Name=""#@ + bundle_id + r#"" Version=""#@ + version + r#".0" Publisher=""#@ + publisher + r#"" />"#@,
            )
            &&& has_part(
                xml,
                r#"<DisplayName>"#@ + app_name + r#"</DisplayName>"#@,
            )
            &&& has_part(
                xml,
                r#"<PublisherDisplayName>"#@ + publisher + r#"</PublisherDisplayName>"#@,
            )
            &&& has_part(
                xml,
                r#"<Description>"#@ + description + r#"</Description>"#@,
            )
            &&& has_part(
                xml,
                r#"<Application Id="App" Executable=""#@ + app_name + r#".exe" EntryPoint="Windows.FullTrustApplication">"#@,
            )
            &&& has_part(
                xml,
                r#"<uap:VisualElements DisplayName=""#@ + app_name + r#"" Description=""#@ + description + r#"""#@,
            )
        }),
{
    reveal_strlit(r#"<?xml version="1.0" encoding="utf-8"?>
<Package xmlns="http://schemas.microsoft.com/appx/manifest/foundation/windows10"
         xmlns:uap="http://schemas.microsoft.com/appx/manifest/uap/windows10"
         xmlns:rescap="http://schemas.microsoft.com/appx/manifest/foundation/windows10/restrictedcapabilities">
  <Identity Name=""#);
    let piece0 = r#"<?xml version="1.0" encoding="utf-8"?>
<Package xmlns="http://schemas.microsoft.com/appx/manifest/foundation/windows10"
         xmlns:uap="http://schemas.microsoft.com/appx/manifest/uap/windows10"
         xmlns:rescap="http://schemas.microsoft.com/appx/manifest/foundation/windows10/restrictedcapabilities">
  <Identity Name=""#@;
    reveal_strlit(r#"" Version=""#);
    let piece1 = r#"" Version=""#@;
    reveal_strlit(r#".0" Publisher=""#);
    let piece2 = r#".0" Publisher=""#@;
    reveal_strlit(r#"" />
  <Properties>
    <DisplayName>"#);
    let piece3 = r#"" />
  <Properties>
    <DisplayName>"#@;
    reveal_strlit(r#"</DisplayName>
    <PublisherDisplayName>"#);
    let piece4 = r#"</DisplayName>
    <PublisherDisplayName>"#@;
    reveal_strlit(r#"</PublisherDisplayName>
    <Description>"#);
    let piece5 = r#"</PublisherDisplayName>
    <Description>"#@;
    reveal_strlit(r#"</Description>
    <Logo>app.ico</Logo>
  </Properties>
  <Resources>
    <Resource Language="en-us" />
  </Resources>
  <Dependencies>
    <TargetDeviceFamily Name="Windows.Desktop" MinVersion="10.0.17763.0" MaxVersionTested="10.0.22621.0" />
  </Dependencies>
  <Applications>
    <Application Id="App" Executable=""#);
    let piece6 = r#"</Description>
    <Logo>app.ico</Logo>
  </Properties>
  <Resources>
    <Resource Language="en-us" />
  </Resources>
  <Dependencies>
    <TargetDeviceFamily Name="Windows.Desktop" MinVersion="10.0.17763.0" MaxVersionTested="10.0.22621.0" />
  </Dependencies>
  <Applications>
    <Application Id="App" Executable=""#@;
    reveal_strlit(r#".exe" EntryPoint="Windows.FullTrustApplication">
      <uap:VisualElements DisplayName=""#);
    let piece7 = r#".exe" EntryPoint="Windows.FullTrustApplication">
      <uap:VisualElements DisplayName=""#@;
    reveal_strlit(r#"" Description=""#);
    let piece8 = r#"" Description=""#@;
    reveal_strlit(r#""
                          BackgroundColor="transparent" Square150x150Logo="app.ico" Square44x44Logo="app.ico" />
    </Application>
  </Applications>
</Package>"#);
    let piece9 = r#""
                          BackgroundColor="transparent" Square150x150Logo="app.ico" Square44x44Logo="app.ico" />
    </Application>
  </Applications>
</Package>"#@;
    reveal_strlit(r#"""#);
    reveal_strlit(r#"" />"#);
    reveal_strlit(r#".exe" EntryPoint="Windows.FullTrustApplication">"#);
    reveal_strlit(r#"</Description>"#);
    reveal_strlit(r#"</DisplayName>"#);
    reveal_strlit(r#"</PublisherDisplayName>"#);
    reveal_strlit(r#"<Application Id="App" Executable=""#);
    reveal_strlit(r#"<Description>"#);
    reveal_strlit(r#"<DisplayName>"#);
    reveal_strlit(r#"<Identity Name=""#);
    reveal_strlit(r#"<PublisherDisplayName>"#);
    reveal_strlit(r#"<uap:VisualElements DisplayName=""#);
    let s0 = Seq::<char>::empty();
    let s1 = s0 + piece0;
    lemma_parts_stay(s0, piece0);
    assert(piece0.skip(piece0.len() - 16) =~= r#"<Identity Name=""#@);
    lemma_opens(s0, piece0, r#"<Identity Name=""#@);
    let s2 = s1 + bundle_id;
    lemma_parts_stay(s1, bundle_id);
    lemma_goes_on(s1, r#"<Identity Name=""#@, bundle_id);
    let s3 = s2 + piece1;
    lemma_parts_stay(s2, piece1);
    lemma_goes_on(s2, r#"<Identity Name=""#@ + bundle_id, piece1);
    let s4 = s3 + version;
    lemma_parts_stay(s3, version);
    lemma_goes_on(s3, r#"<Identity Name=""#@ + bundle_id + r#"" Version=""#@, version);
    let s5 = s4 + piece2;
    lemma_parts_stay(s4, piece2);
    lemma_goes_on(s4, r#"<Identity Name=""#@ + bundle_id + r#"" Version=""#@ + version, piece2);
    let s6 = s5 + publisher;
    lemma_parts_stay(s5, publisher);
    lemma_goes_on(s5, r#"<Identity Name=""#@ + bundle_id + r#"" Version=""#@ + version + r#".0" Publisher=""#@, publisher);
    let s7 = s6 + piece3;
    lemma_parts_stay(s6, piece3);
    assert(piece3.take(4) =~= r#"" />"#@);
    lemma_closes(s6, r#"<Identity Name=""#@ + bundle_id + r#"" Version=""#@ + version + r#".0" Publisher=""#@ + publisher, piece3, r#"" />"#@);
    assert(piece3.skip(piece3.len() - 13) =~= r#"<DisplayName>"#@);
    lemma_opens(s6, piece3, r#"<DisplayName>"#@);
    let s8 = s7 + app_name;
    lemma_parts_stay(s7, app_name);
    lemma_goes_on(s7, r#"<DisplayName>"#@, app_name);
    let s9 = s8 + piece4;
    lemma_parts_stay(s8, piece4);
    assert(piece4.take(14) =~= r#"</DisplayName>"#@);
    lemma_closes(s8, r#"<DisplayName>"#@ + app_name, piece4, r#"</DisplayName>"#@);
    assert(piece4.skip(piece4.len() - 22) =~= r#"<PublisherDisplayName>"#@);
    lemma_opens(s8, piece4, r#"<PublisherDisplayName>"#@);
    let s10 = s9 + publisher;
    lemma_parts_stay(s9, publisher);
    lemma_goes_on(s9, r#"<PublisherDisplayName>"#@, publisher);
    let s11 = s10 + piece5;
    lemma_parts_stay(s10, piece5);
    assert(piece5.take(23) =~= r#"</PublisherDisplayName>"#@);
    lemma_closes(s10, r#"<PublisherDisplayName>"#@ + publisher, piece5, r#"</PublisherDisplayName>"#@);
    assert(piece5.skip(piece5.len() - 13) =~= r#"<Description>"#@);
    lemma_opens(s10, piece5, r#"<Description>"#@);
    let s12 = s11 + description;
    lemma_parts_stay(s11, description);
    lemma_goes_on(s11, r#"<Description>"#@, description);
    let s13 = s12 + piece6;
    lemma_parts_stay(s12, piece6);
    assert(piece6.take(14) =~= r#"</Description>"#@);
    lemma_closes(s12, r#"<Description>"#@ + description, piece6, r#"</Description>"#@);
    assert(piece6.skip(piece6.len() - 34) =~= r#"<Application Id="App" Executable=""#@);
    lemma_opens(s12, piece6, r#"<Application Id="App" Executable=""#@);
    let s14 = s13 + app_name;
    lemma_parts_stay(s13, app_name);
    lemma_goes_on(s13, r#"<Application Id="App" Executable=""#@, app_name);
    let s15 = s14 + piece7;
    lemma_parts_stay(s14, piece7);
    assert(piece7.take(48) =~= r#".exe" EntryPoint="Windows.FullTrustApplication">"#@);
    lemma_closes(s14, r#"<Application Id="App" Executable=""#@ + app_name, piece7, r#".exe" EntryPoint="Windows.FullTrustApplication">"#@);
    assert(piece7.skip(piece7.len() - 33) =~= r#"<uap:VisualElements DisplayName=""#@);
    lemma_opens(s14, piece7, r#"<uap:VisualElements DisplayName=""#@);
    let s16 = s15 + app_name;
    lemma_parts_stay(s15, app_name);
    lemma_goes_on(s15, r#"<uap:VisualElements DisplayName=""#@, app_name);
    let s17 = s16 + piece8;
    lemma_parts_stay(s16, piece8);
    lemma_goes_on(s16, r#"<uap:VisualElements DisplayName=""#@ + app_name, piece8);
    let s18 = s17 + description;
    lemma_parts_stay(s17, description);
    lemma_goes_on(s17, r#"<uap:VisualElements DisplayName=""#@ + app_name + r#"" Description=""#@, description);
    let s19 = s18 + piece9;
    lemma_parts_stay(s18, piece9);
    assert(piece9.take(1) =~= r#"""#@);
    lemma_closes(s18, r#"<uap:VisualElements DisplayName=""#@ + app_name + r#"" Description=""#@ + description, piece9, r#"""#@);
    assert(s19 =~= appx_manifest_of(bundle_id, app_name, version, publisher, description));
}
// ---------------------------------------------------------------------------
// The laws
// ---------------------------------------------------------------------------

/// Whether XML holds a text between two others: what is read there is that text.
pub open spec fn says(xml: Seq<char>, before: Seq<char>, text: Seq<char>, after: Seq<char>) -> bool {
    exists|escaped: Seq<char>| #[trigger]
        has_part(xml, before + escaped + after) && xml_read(escaped) == text
}

proof fn lemma_says(xml: Seq<char>, before: Seq<char>, text: Seq<char>, after: Seq<char>)
    requires
        has_part(xml, before + xml_escaped(text) + after),
    ensures
        says(xml, before, text, after),
{
    lemma_xml_escape_is_undone(text);
}

/// The manifest in an executable asks for the privileges that the application is
/// configured with, those of the invoker where it is not, and for its DPI mode,
/// that per monitor where it is not. It names the application by its identifier
/// and by its version with a fourth number.
pub proof fn lemma_app_manifest_says_what_is_configured(m: &BuildManifest, xml: String)
    requires
        call_ensures(generate_app_manifest, (m,), xml),
    ensures
        says(
            xml@,
            r#"<requestedExecutionLevel level=""#@,
            or_text(m.windows_uac_level, "asInvoker"@),
            r#"" uiAccess="false" />"#@,
        ),
        says(
            xml@,
            r#"<dpiAware xmlns="http://schemas.microsoft.com/SMI/2005/WindowsSettings">"#@,
            or_text(m.windows_dpi_aware, "true/pm"@),
            "</dpiAware>"@,
        ),
        has_part(
            xml@,
            r#"<assemblyIdentity type="win32" name=""#@ + xml_escaped(m.bundle_id@)
                + r#"" version=""#@ + xml_escaped(m.version@) + r#".0" />"#@,
        ),
{
    let uac = or_text(m.windows_uac_level, "asInvoker"@);
    let dpi = or_text(m.windows_dpi_aware, "true/pm"@);
    lemma_parts_of_app_manifest(
        xml_escaped(m.bundle_id@),
        xml_escaped(m.version@),
        xml_escaped(uac),
        xml_escaped(dpi),
    );
    lemma_says(
        xml@,
        r#"<requestedExecutionLevel level=""#@,
        uac,
        r#"" uiAccess="false" />"#@,
    );
    lemma_says(
        xml@,
        r#"<dpiAware xmlns="http://schemas.microsoft.com/SMI/2005/WindowsSettings">"#@,
        dpi,
        "</dpiAware>"@,
    );
}

/// The manifest of a package shows the application under its name, its publisher
/// and its description, the name where there is none, and starts the executable
/// of that name. It names the package by the identifier of the application, its
/// version with a fourth number, and its publisher.
pub proof fn lemma_appx_manifest_says_what_is_configured(m: &BuildManifest, xml: String)
    requires
        call_ensures(generate_appx_manifest, (m,), xml),
    ensures
        says(xml@, "<DisplayName>"@, m.app_name@, "</DisplayName>"@),
        says(
            xml@,
            "<PublisherDisplayName>"@,
            or_text(m.windows_company_name, "CN=Unknown"@),
            "</PublisherDisplayName>"@,
        ),
        says(
            xml@,
            "<Description>"@,
            or_text(m.windows_file_description, m.app_name@),
            "</Description>"@,
        ),
        says(
            xml@,
            r#"<Application Id="App" Executable=""#@,
            m.app_name@,
            r#".exe" EntryPoint="Windows.FullTrustApplication">"#@,
        ),
        has_part(
            xml@,
            r#"<Identity Name=""#@ + xml_escaped(m.bundle_id@) + r#"" Version=""#@ + xml_escaped(
                m.version@,
            ) + r#".0" Publisher=""#@ + xml_escaped(
                or_text(m.windows_company_name, "CN=Unknown"@),
            ) + r#"" />"#@,
        ),
        has_part(
            xml@,
            r#"<uap:VisualElements DisplayName=""#@ + xml_escaped(m.app_name@)
                + r#"" Description=""#@ + xml_escaped(
                or_text(m.windows_file_description, m.app_name@),
            ) + r#"""#@,
        ),
{
    let publisher = or_text(m.windows_company_name, "CN=Unknown"@);
    let description = or_text(m.windows_file_description, m.app_name@);
    lemma_parts_of_appx_manifest(
        xml_escaped(m.bundle_id@),
        xml_escaped(m.app_name@),
        xml_escaped(m.version@),
        xml_escaped(publisher),
        xml_escaped(description),
    );
    lemma_says(xml@, "<DisplayName>"@, m.app_name@, "</DisplayName>"@);
    lemma_says(xml@, "<PublisherDisplayName>"@, publisher, "</PublisherDisplayName>"@);
    lemma_says(xml@, "<Description>"@, description, "</Description>"@);
    lemma_says(
        xml@,
        r#"<Application Id="App" Executable=""#@,
        m.app_name@,
        r#".exe" EntryPoint="Windows.FullTrustApplication">"#@,
    );
}

} // verus!
