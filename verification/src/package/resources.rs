//! The resources that go into an executable: manifest, version and icon.
use crate::build::assets::{
    check_icon_size, data_start, dir_entry, generate_ico, ico_data, ico_directory, ico_file,
    ico_header, icon_holds, images_of, is_decoded, is_png, write_ico,
};
use crate::bytes::{
    le16, le32, lemma_le16_read, lemma_le32_read, push_bytes, push_le16, push_range, u16_at, u32_at,
};
use crate::package::version_info::{build_vs_version_info, version_info};
use crate::queue::job::BuildManifest;
use crate::text::{cat2, cat3, cat4, decimal, decimal_text};
use vstd::prelude::*;
use vstd::string::*;

verus! {

/// The type of an icon image.
pub const RT_ICON: u16 = 3;

/// The type of a group of icon images.
pub const RT_GROUP_ICON: u16 = 14;

/// The type of a version resource.
pub const RT_VERSION: u16 = 16;

/// The type of an application manifest.
pub const RT_MANIFEST: u16 = 24;

/// The language of every resource: English (United States).
pub const LANG_ENGLISH: u16 = 0x0409;

/// A resource to put into an executable.
pub struct Resource {
    pub kind: u16,
    pub id: u16,
    pub data: Vec<u8>,
    /// What the resource is called in messages.
    pub label: String,
}

/// What a resource holds.
#[verifier::ext_equal]
pub struct ResourceView {
    pub kind: nat,
    pub id: nat,
    pub data: Seq<u8>,
    pub label: Seq<char>,
}

impl View for Resource {
    type V = ResourceView;

    open spec fn view(&self) -> ResourceView {
        ResourceView {
            kind: self.kind as nat,
            id: self.id as nat,
            data: self.data@,
            label: self.label@,
        }
    }
}

/// What the resources of a list hold.
pub open spec fn resources(list: Seq<Resource>) -> Seq<ResourceView> {
    list.map_values(|r: Resource| r@)
}

/// The number of images that an icon's header states.
pub open spec fn icon_count(ico: Seq<u8>) -> nat {
    u16_at(ico, 4)
}

/// Where the directory entry of image `i` stands.
pub open spec fn entry_at(i: int) -> int {
    6 + 16 * i
}

/// The length that the directory states of image `i`.
pub open spec fn image_len(ico: Seq<u8>, i: int) -> nat {
    u32_at(ico, entry_at(i) + 8)
}

/// Where the directory says that image `i` starts.
pub open spec fn image_offset(ico: Seq<u8>, i: int) -> nat {
    u32_at(ico, entry_at(i) + 12)
}

/// Image `i` lies inside the file.
pub open spec fn image_fits(ico: Seq<u8>, i: int) -> bool {
    image_offset(ico, i) + image_len(ico, i) <= ico.len()
}

/// The bytes of image `i`.
pub open spec fn image_bytes(ico: Seq<u8>, i: int) -> Seq<u8> {
    ico.subrange(
        image_offset(ico, i) as int,
        image_offset(ico, i) as int + image_len(ico, i),
    )
}

/// The first of the images from `i` up to `count` that does not lie inside the
/// file, or `count`.
pub open spec fn first_outside(ico: Seq<u8>, i: nat, count: nat) -> nat
    decreases count - i,
{
    if i >= count || !image_fits(ico, i as int) {
        i
    } else {
        first_outside(ico, i + 1, count)
    }
}

/// The group of the first `n` images: the icon's header, then of each entry the
/// first twelve bytes, and the image's number in place of its offset.
pub open spec fn group_icon(ico: Seq<u8>, n: nat) -> Seq<u8>
    decreases n,
{
    if n == 0 {
        ico.subrange(0, 6)
    } else {
        let at = entry_at(n - 1);
        group_icon(ico, (n - 1) as nat) + ico.subrange(at, at + 12) + le16(n)
    }
}

/// The resource of an icon's group.
pub open spec fn group_resource(ico: Seq<u8>) -> ResourceView {
    ResourceView {
        kind: RT_GROUP_ICON as nat,
        id: 1,
        data: group_icon(ico, icon_count(ico)),
        label: "group icon"@,
    }
}

/// The resource of image `i`.
pub open spec fn image_resource(ico: Seq<u8>, i: int) -> ResourceView {
    ResourceView {
        kind: RT_ICON as nat,
        id: (i + 1) as nat,
        data: image_bytes(ico, i),
        label: "icon "@ + decimal(i as nat),
    }
}

/// What is put into an executable for an icon: the group, then the images up to
/// the first that does not lie inside the file.
pub open spec fn icon_updates(ico: Seq<u8>) -> Seq<ResourceView> {
    if ico.len() < 6 || ico.len() < entry_at(icon_count(ico) as int) {
        Seq::empty()
    } else {
        seq![group_resource(ico)] + Seq::new(
            first_outside(ico, 0, icon_count(ico)),
            |i: int| image_resource(ico, i),
        )
    }
}

/// What is wrong with an icon, if anything is.
pub open spec fn icon_error(ico: Seq<u8>) -> Option<Seq<char>> {
    if ico.len() < 6 {
        Some("ICO data too small"@)
    } else if ico.len() < entry_at(icon_count(ico) as int) {
        Some("ICO data truncated"@)
    } else if first_outside(ico, 0, icon_count(ico)) < icon_count(ico) {
        Some(
            "ICO image "@ + decimal(first_outside(ico, 0, icon_count(ico)))
                + " extends beyond file"@,
        )
    } else {
        None
    }
}

fn read_u32(b: &[u8], at: usize) -> (n: u32)
    requires
        at + 4 <= b@.len(),
    ensures
        n == u32_at(b@, at as int),
{
    b[at] as u32 + 256 * b[at + 1] as u32 + 65536 * b[at + 2] as u32 + 16777216 * b[at + 3] as u32
}

/// ICO data as RT_GROUP_ICON + individual RT_ICON resources: what is put into
/// an executable, in order, and the error that ends it, if any.
pub fn icon_resources(ico: &[u8]) -> (r: (Vec<Resource>, Option<String>))
    ensures
        resources(r.0@) == icon_updates(ico@),
        match (r.1, icon_error(ico@)) {
            (Some(e), Some(message)) => e@ == message,
            (None, None) => true,
            _ => false,
        },
{
    let mut updates: Vec<Resource> = Vec::new();
    if ico.len() < 6 {
        assert(resources(updates@) =~= icon_updates(ico@));
        return (updates, Some("ICO data too small".to_owned()));
    }
    let count: usize = ico[4] as usize + 256 * ico[5] as usize;
    if ico.len() < 6 + 16 * count {
        assert(resources(updates@) =~= icon_updates(ico@));
        return (updates, Some("ICO data truncated".to_owned()));
    }
    let mut group: Vec<u8> = Vec::new();
    push_range(&mut group, ico, 0, 6);
    assert(group@ =~= group_icon(ico@, 0));
    let mut k: usize = 0;
    while k < count
        invariant
            k <= count,
            count <= 65535,
            6 + 16 * count <= ico@.len(),
            group@ == group_icon(ico@, k as nat),
        decreases count - k,
    {
        let at: usize = 6 + 16 * k;
        push_range(&mut group, ico, at, at + 12);
        push_le16(&mut group, (k + 1) as u16);
        k = k + 1;
    }
    updates.push(
        Resource { kind: RT_GROUP_ICON, id: 1, data: group, label: "group icon".to_owned() },
    );
    let mut i: usize = 0;
    assert(resources(updates@) =~= seq![group_resource(ico@)] + Seq::new(
        0,
        |j: int| image_resource(ico@, j),
    ));
    while i < count
        invariant
            i <= count,
            count == icon_count(ico@),
            count <= 65535,
            6 <= ico@.len(),
            entry_at(count as int) <= ico@.len(),
            first_outside(ico@, i as nat, count as nat) == first_outside(ico@, 0, count as nat),
            resources(updates@) == seq![group_resource(ico@)] + Seq::new(
                i as nat,
                |j: int| image_resource(ico@, j),
            ),
        decreases count - i,
    {
        let at: usize = 6 + 16 * i;
        let len: u64 = read_u32(ico, at + 8) as u64;
        let offset: u64 = read_u32(ico, at + 12) as u64;
        if offset + len > ico.len() as u64 {
            return (
                updates,
                Some(cat3("ICO image ", decimal_text(i as u64).as_str(), " extends beyond file")),
            );
        }
        let mut data: Vec<u8> = Vec::new();
        push_range(&mut data, ico, offset as usize, (offset + len) as usize);
        let label = cat2("icon ", decimal_text(i as u64).as_str());
        let resource = Resource { kind: RT_ICON, id: (i + 1) as u16, data, label };
        assert(resource@ =~= image_resource(ico@, i as int));
        let ghost before = resources(updates@);
        updates.push(resource);
        assert(resources(updates@) =~= before.push(resource@));
        i = i + 1;
        assert(resources(updates@) =~= seq![group_resource(ico@)] + Seq::new(
            i as nat,
            |j: int| image_resource(ico@, j),
        ));
    }
    (updates, None)
}

/// The resources that every executable gets: its application manifest and its
/// version information.
pub open spec fn fixed_updates(m: BuildManifest, manifest_xml: Seq<char>) -> Seq<ResourceView> {
    seq![
        ResourceView {
            kind: RT_MANIFEST as nat,
            id: 1,
            data: vstd::utf8::encode_utf8(manifest_xml),
            label: "manifest"@,
        },
        ResourceView {
            kind: RT_VERSION as nat,
            id: 1,
            data: version_info(m),
            label: "version"@,
        },
    ]
}

/// The application manifest and the version information as resources.
pub fn fixed_resources(manifest: &BuildManifest, manifest_xml: &str) -> (r: Vec<Resource>)
    ensures
        resources(r@) == fixed_updates(*manifest, manifest_xml@),
{
    let mut xml: Vec<u8> = Vec::new();
    push_bytes(&mut xml, manifest_xml.as_bytes());
    let mut list: Vec<Resource> = Vec::new();
    list.push(Resource { kind: RT_MANIFEST, id: 1, data: xml, label: "manifest".to_owned() });
    list.push(
        Resource {
            kind: RT_VERSION,
            id: 1,
            data: build_vs_version_info(manifest),
            label: "version".to_owned(),
        },
    );
    assert(list@[0].data@ =~= vstd::utf8::encode_utf8(manifest_xml@));
    assert(resources(list@) =~= fixed_updates(*manifest, manifest_xml@));
    list
}

/// The message for a resource that the system refuses.
pub fn update_failure(label: &str, error: &str) -> (s: String)
    ensures
        s@ == "UpdateResource ("@ + label@ + ") failed: "@ + error@,
{
    cat4("UpdateResource (", label, ") failed: ", error)
}

// ---------------------------------------------------------------------------
// What is read is what was written
// ---------------------------------------------------------------------------

/// An icon of that many images, small enough for its 32-bit offsets.
pub open spec fn is_writable(images: Seq<(u32, Seq<u8>)>) -> bool {
    images.len() <= 65535 && ico_file(images).len() < 0x1_0000_0000
}

/// Each entry of the directory takes sixteen bytes.
proof fn lemma_directory_len(images: Seq<(u32, Seq<u8>)>, start: nat)
    ensures
        ico_directory(images, start).len() == 16 * images.len(),
    decreases images.len(),
{
    reveal(dir_entry);
    if images.len() > 0 {
        lemma_directory_len(images.drop_last(), start);
    }
}

/// Where the entry of image `k` stands in the directory, and what it says.
proof fn lemma_directory_entry(images: Seq<(u32, Seq<u8>)>, start: nat, k: int)
    requires
        0 <= k < images.len(),
    ensures
        ico_directory(images, start).len() == 16 * images.len(),
        ico_directory(images, start).subrange(16 * k, 16 * k + 16) == dir_entry(
            images[k].0,
            images[k].1.len(),
            start + ico_data(images.take(k)).len(),
        ),
    decreases images.len(),
{
    let rest = images.drop_last();
    let entry = dir_entry(images.last().0, images.last().1.len(), start + ico_data(rest).len());
    lemma_directory_len(images, start);
    lemma_directory_len(rest, start);
    assert(entry.len() == 16) by {
        reveal(dir_entry);
    }
    if k == images.len() - 1 {
        assert(images.take(k) =~= rest);
        assert(ico_directory(images, start).subrange(16 * k, 16 * k + 16) =~= entry);
    } else {
        lemma_directory_entry(rest, start, k);
        assert(rest.take(k) =~= images.take(k));
        assert(ico_directory(images, start).subrange(16 * k, 16 * k + 16) =~= ico_directory(
            rest,
            start,
        ).subrange(16 * k, 16 * k + 16));
    }
}

/// Where the bytes of image `k` stand among all.
proof fn lemma_data_part(images: Seq<(u32, Seq<u8>)>, k: int)
    requires
        0 <= k < images.len(),
    ensures
        ico_data(images.take(k)).len() + images[k].1.len() <= ico_data(images).len(),
        ico_data(images).subrange(
            ico_data(images.take(k)).len() as int,
            ico_data(images.take(k)).len() as int + images[k].1.len(),
        ) == images[k].1,
    decreases images.len(),
{
    let rest = images.drop_last();
    let at = ico_data(images.take(k)).len() as int;
    if k == images.len() - 1 {
        assert(images.take(k) =~= rest);
        assert(ico_data(images).subrange(at, at + images[k].1.len()) =~= images[k].1);
    } else {
        lemma_data_part(rest, k);
        assert(rest.take(k) =~= images.take(k));
        assert(ico_data(images).subrange(at, at + images[k].1.len()) =~= ico_data(rest).subrange(
            at,
            at + images[k].1.len(),
        ));
    }
}

/// Where an entry holds the length and the offset.
proof fn lemma_entry_fields(size: u32, len: nat, offset: nat)
    ensures
        dir_entry(size, len, offset).len() == 16,
        dir_entry(size, len, offset).subrange(8, 12) == le32(len % 0x1_0000_0000),
        dir_entry(size, len, offset).subrange(12, 16) == le32(offset % 0x1_0000_0000),
{
    reveal(dir_entry);
    assert(dir_entry(size, len, offset).subrange(8, 12) =~= le32(len % 0x1_0000_0000));
    assert(dir_entry(size, len, offset).subrange(12, 16) =~= le32(offset % 0x1_0000_0000));
}

/// What stands in a file where an entry stands.
proof fn lemma_entry_read(file: Seq<u8>, at: int, size: u32, len: nat, offset: nat)
    requires
        0 <= at,
        at + 16 <= file.len(),
        file.subrange(at, at + 16) == dir_entry(size, len, offset),
        len < 0x1_0000_0000,
        offset < 0x1_0000_0000,
    ensures
        u32_at(file, at + 8) == len,
        u32_at(file, at + 12) == offset,
{
    let entry = dir_entry(size, len, offset);
    lemma_entry_fields(size, len, offset);
    assert(file.subrange(at + 8, at + 8 + 4) =~= file.subrange(at, at + 16).subrange(8, 12));
    assert(file.subrange(at + 12, at + 12 + 4) =~= file.subrange(at, at + 16).subrange(12, 16));
    lemma_le32_read(file, at + 8, len);
    lemma_le32_read(file, at + 12, offset);
}

/// What a written icon says of its image `k`.
proof fn lemma_written_entry(images: Seq<(u32, Seq<u8>)>, k: int)
    requires
        is_writable(images),
        0 <= k < images.len(),
    ensures
        image_len(ico_file(images), k) == images[k].1.len(),
        image_offset(ico_file(images), k) == data_start(images.len()) + ico_data(
            images.take(k),
        ).len(),
        image_fits(ico_file(images), k),
        image_bytes(ico_file(images), k) == images[k].1,
{
    let n = images.len();
    let start = data_start(n);
    let header = ico_header(n);
    let dir = ico_directory(images, start);
    let data = ico_data(images);
    let file = ico_file(images);
    let len = images[k].1.len();
    let before = ico_data(images.take(k)).len();
    let offset = start + before;
    lemma_directory_entry(images, start, k);
    lemma_data_part(images, k);
    assert(header.len() == 6);
    assert(start == 6 + 16 * n);
    assert(file.len() == start + data.len());
    let at = entry_at(k);
    lemma_part_of_three(header, dir, data, at, at + 16);
    lemma_entry_read(file, at, images[k].0, len, offset);
    lemma_tail_part(header + dir, data, before as int, before as int + len);
}

/// A part of the middle of three sequences.
proof fn lemma_part_of_three(a: Seq<u8>, b: Seq<u8>, c: Seq<u8>, from: int, to: int)
    requires
        a.len() <= from <= to <= a.len() + b.len(),
    ensures
        (a + b + c).subrange(from, to) == b.subrange(from - a.len(), to - a.len()),
{
    assert((a + b + c).subrange(from, to) =~= b.subrange(from - a.len(), to - a.len()));
}

/// A part of the latter of two sequences.
proof fn lemma_tail_part(a: Seq<u8>, b: Seq<u8>, from: int, to: int)
    requires
        0 <= from <= to <= b.len(),
    ensures
        (a + b).subrange(a.len() + from, a.len() + to) == b.subrange(from, to),
{
    assert((a + b).subrange(a.len() + from, a.len() + to) =~= b.subrange(from, to));
}

/// All images of a written icon lie inside the file.
proof fn lemma_written_all_fit(images: Seq<(u32, Seq<u8>)>, i: nat)
    requires
        is_writable(images),
        i <= images.len(),
    ensures
        first_outside(ico_file(images), i, images.len()) == images.len(),
    decreases images.len() - i,
{
    if i < images.len() {
        lemma_written_entry(images, i as int);
        lemma_written_all_fit(images, i + 1);
    }
}

/// An icon that was written is read back whole: nothing is wrong with it, and
/// its resources are the group and then each image, in order, under the
/// numbers from 1 on.
pub proof fn lemma_written_icon_is_read_back(images: Seq<(u32, Seq<u8>)>)
    requires
        is_writable(images),
    ensures
        icon_error(ico_file(images)) is None,
        icon_count(ico_file(images)) == images.len(),
        icon_updates(ico_file(images)).len() == images.len() + 1,
        icon_updates(ico_file(images))[0] == group_resource(ico_file(images)),
        forall|k: int|
            #![trigger images[k]]
            0 <= k < images.len() ==> {
                let r = icon_updates(ico_file(images))[k + 1];
                r.kind == RT_ICON && r.id == k + 1 && r.data == images[k].1
            },
{
    let n = images.len();
    let file = ico_file(images);
    lemma_directory_len(images, data_start(n));
    assert(file.subrange(4, 6) =~= le16(n));
    lemma_le16_read(file, 4, n);
    lemma_written_all_fit(images, 0);
    assert forall|k: int| #![trigger images[k]] 0 <= k < n implies {
        let r = icon_updates(file)[k + 1];
        r.kind == RT_ICON && r.id == k + 1 && r.data == images[k].1
    } by {
        lemma_written_entry(images, k);
        assert(icon_updates(file)[k + 1] == image_resource(file, k));
    }
}

/// Where an entry holds the size of the image and how its pixels are stored.
proof fn lemma_entry_size(file: Seq<u8>, at: int, size: u32, len: nat, offset: nat)
    requires
        0 <= at,
        at + 16 <= file.len(),
        file.subrange(at, at + 16) == dir_entry(size, len, offset),
    ensures
        file[at] == (if size >= 256 {
            0
        } else {
            size as int
        }),
        file[at + 1] == file[at],
        u16_at(file, at + 4) == 1,
        u16_at(file, at + 6) == 32,
{
    reveal(dir_entry);
    let entry = file.subrange(at, at + 16);
    assert(entry[0] == file[at]);
    assert(entry[1] == file[at + 1]);
    assert(entry[4] == file[at + 4]);
    assert(entry[5] == file[at + 5]);
    assert(entry[6] == file[at + 6]);
    assert(entry[7] == file[at + 7]);
}

/// What a reader of an icon finds of its image `k`: its width and its height (0
/// for 256 or more), that it has 32 bits per pixel, how long it is, and its bytes
/// where they are said to begin.
pub open spec fn shows(file: Seq<u8>, k: int, size: u32, data: Seq<u8>) -> bool {
    let at = 6 + 16 * k;
    let from = u32_at(file, at + 12) as int;
    &&& file[at] == (if size >= 256 {
        0
    } else {
        size as int
    })
    &&& file[at + 1] == file[at]
    &&& u16_at(file, at + 4) == 1
    &&& u16_at(file, at + 6) == 32
    &&& u32_at(file, at + 8) == data.len()
    &&& from + data.len() <= file.len()
    &&& file.subrange(from, from + data.len()) == data
}

/// A written icon tells how many images it has, and shows each of them.
proof fn lemma_written_icon_shows(images: Seq<(u32, Seq<u8>)>)
    requires
        is_writable(images),
    ensures
        u16_at(ico_file(images), 0) == 0,
        u16_at(ico_file(images), 2) == 1,
        u16_at(ico_file(images), 4) == images.len(),
        ico_file(images).len() >= 6 + 16 * images.len(),
        forall|k: int|
            0 <= k < images.len() ==> shows(
                ico_file(images),
                k,
                (#[trigger] images[k]).0,
                images[k].1,
            ),
{
    let n = images.len();
    let file = ico_file(images);
    let dir = ico_directory(images, data_start(n));
    lemma_directory_len(images, data_start(n));
    assert(file.subrange(0, 2) =~= le16(0));
    assert(file.subrange(2, 4) =~= le16(1));
    assert(file.subrange(4, 6) =~= le16(n));
    lemma_le16_read(file, 0, 0);
    lemma_le16_read(file, 2, 1);
    lemma_le16_read(file, 4, n);
    assert forall|k: int| 0 <= k < images.len() implies shows(
        file,
        k,
        (#[trigger] images[k]).0,
        images[k].1,
    ) by {
        lemma_written_entry(images, k);
        lemma_directory_entry(images, data_start(n), k);
        let at = entry_at(k);
        lemma_part_of_three(ico_header(n), dir, ico_data(images), at, at + 16);
        lemma_entry_size(
            file,
            at,
            images[k].0,
            images[k].1.len(),
            data_start(n) + ico_data(images.take(k)).len(),
        );
    }
}

/// A reader of a written icon finds how many images there are, and each image
/// with its size and its bytes.
pub proof fn lemma_icons_hold_their_images(entries: &Vec<(u32, Vec<u8>)>, file: Vec<u8>)
    requires
        call_ensures(write_ico, (entries,), file),
        entries@.len() <= 65535,
        file@.len() < 0x1_0000_0000,
    ensures
        u16_at(file@, 0) == 0,
        u16_at(file@, 2) == 1,
        u16_at(file@, 4) == entries@.len(),
        file@.len() >= 6 + 16 * entries@.len(),
        forall|k: int|
            0 <= k < entries@.len() ==> shows(
                file@,
                k,
                (#[trigger] entries@[k]).0,
                entries@[k].1@,
            ),
{
    let images = images_of(entries@);
    lemma_written_icon_shows(images);
    assert forall|k: int| 0 <= k < entries@.len() implies shows(
        file@,
        k,
        (#[trigger] entries@[k]).0,
        entries@[k].1@,
    ) by {
        assert(images[k] == (entries@[k].0, entries@[k].1@));
    }
}

/// Whether an icon shows, as its image `k`, a PNG file of that width and height.
pub open spec fn shows_png(file: Seq<u8>, k: int, size: u32) -> bool {
    exists|data: Seq<u8>| #[trigger] shows(file, k, size, data) && is_png(data, size as nat, size as nat)
}

/// The icon of an application has a picture in each of the sizes that Windows
/// shows: 16, 24, 32, 48, 64, 128 and 256 pixels, each a PNG file of that width
/// and height.
pub proof fn lemma_icons_come_in_the_sizes_of_windows(
    extension: Option<&str>,
    data: &[u8],
    file: Vec<u8>,
)
    requires
        call_ensures(generate_ico, (extension, data), Ok::<Vec<u8>, String>(file)),
        file@.len() < 0x1_0000_0000,
    ensures
        u16_at(file@, 4) == 7,
        shows_png(file@, 0, 16),
        shows_png(file@, 1, 24),
        shows_png(file@, 2, 32),
        shows_png(file@, 3, 48),
        shows_png(file@, 4, 64),
        shows_png(file@, 5, 128),
        shows_png(file@, 6, 256),
{
    let ext = extension->Some_0@;
    let (images, source) = choose|images: Seq<(u32, Seq<u8>)>, source: (nat, nat, Seq<u8>)| #[trigger]
        icon_holds(file@, images, source) && is_decoded(ext, data@, source);
    assert(icon_holds(file@, images, source));
    lemma_written_icon_shows(images);
    assert(images[0].0 == 16 && shows(file@, 0, 16, images[0].1));
    assert(images[1].0 == 24 && shows(file@, 1, 24, images[1].1));
    assert(images[2].0 == 32 && shows(file@, 2, 32, images[2].1));
    assert(images[3].0 == 48 && shows(file@, 3, 48, images[3].1));
    assert(images[4].0 == 64 && shows(file@, 4, 64, images[4].1));
    assert(images[5].0 == 128 && shows(file@, 5, 128, images[5].1));
    assert(images[6].0 == 256 && shows(file@, 6, 256, images[6].1));
}

/// A picture is taken for an icon exactly if it is at least 256 pixels wide and
/// as high.
pub proof fn lemma_small_pictures_are_refused(width: u32, height: u32, r: Result<(), String>)
    requires
        call_ensures(check_icon_size, (width, height), r),
    ensures
        r is Ok <==> width >= 256 && height >= 256,
{
}

} // verus!
