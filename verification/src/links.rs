//! Where an upload is stored, and the addresses under which it is served.

use vstd::prelude::*;

verus! {

/// A directory under the data directory.
#[derive(Debug, Clone, Copy, PartialEq, Eq, Structural)]
pub enum Directory {
    /// Uploaded files.
    Nodes,
    /// Rendered pictures.
    Png,
}

impl Directory {
    /// The name of the directory.
    pub open spec fn spec_name(self) -> Seq<char> {
        match self {
            Directory::Nodes => "nodes"@,
            Directory::Png => "png"@,
        }
    }

    /// The name of the directory.
    pub fn name(&self) -> (name: &'static str)
        ensures
            name@ == self.spec_name(),
            *self == Directory::Nodes ==> name@ == "nodes"@,
            *self == Directory::Png ==> name@ == "png"@,
    {
        match self {
            Directory::Nodes => "nodes",
            Directory::Png => "png",
        }
    }
}

/// A file of the store: its directory and its name there.
#[derive(Debug)]
pub struct StoredFile {
    pub directory: Directory,
    pub name: String,
}

/// A file of the store, as a value.
pub struct FileKey {
    pub directory: Directory,
    pub name: Seq<char>,
}

impl View for StoredFile {
    type V = FileKey;

    open spec fn view(&self) -> FileKey {
        FileKey { directory: self.directory, name: self.name@ }
    }
}

/// The file that keeps the upload with this identifier.
pub open spec fn nodes_key(id: Seq<char>) -> FileKey {
    FileKey { directory: Directory::Nodes, name: id + ".nodes"@ }
}

/// The file that keeps the picture of the upload with this identifier.
pub open spec fn png_key(id: Seq<char>) -> FileKey {
    FileKey { directory: Directory::Png, name: id + ".png"@ }
}

/// The route of the pictures. `:id` stands for the identifier.
pub const PNG_ROUTE: &'static str = "/p/:id/png";

/// The route of the share pages. `:id` stands for the identifier.
pub const OG_ROUTE: &'static str = "/p/:id";

/// The address of the picture with this identifier.
pub open spec fn png_address(id: Seq<char>) -> Seq<char> {
    "/p/"@ + id + "/png"@
}

/// The share address of the picture with this identifier.
pub open spec fn og_address(id: Seq<char>) -> Seq<char> {
    "/p/"@ + id
}

/// The file that keeps the upload with this identifier.
pub fn nodes_file(id: &str) -> (file: StoredFile)
    ensures
        file@ == nodes_key(id@),
        file.directory == Directory::Nodes,
        file.name@ == id@ + ".nodes"@,
{
    let mut name = id.to_owned();
    name.append(".nodes");
    StoredFile { directory: Directory::Nodes, name }
}

/// The file that keeps the picture of the upload with this identifier.
pub fn png_file(id: &str) -> (file: StoredFile)
    ensures
        file@ == png_key(id@),
        file.directory == Directory::Png,
        file.name@ == id@ + ".png"@,
{
    let mut name = id.to_owned();
    name.append(".png");
    StoredFile { directory: Directory::Png, name }
}

/// The address of the picture with this identifier.
pub fn png_url(id: &str) -> (url: String)
    ensures
        url@ == png_address(id@),
        url@ == "/p/"@ + id@ + "/png"@,
{
    let mut url = "/p/".to_owned();
    url.append(id);
    url.append("/png");
    url
}

/// The share address of the picture with this identifier.
pub fn og_url(id: &str) -> (url: String)
    ensures
        url@ == og_address(id@),
        url@ == "/p/"@ + id@,
{
    let mut url = "/p/".to_owned();
    url.append(id);
    url
}

/// What an upload gave: its identifier and the addresses of its picture.
#[derive(Debug)]
pub struct UploadResponse {
    pub id: String,
    pub png_url: String,
    pub og_url: String,
}

impl UploadResponse {
    /// Whether the addresses are those of the identifier.
    pub open spec fn wf(self) -> bool {
        &&& self.png_url@ == png_address(self.id@)
        &&& self.og_url@ == og_address(self.id@)
    }

    /// The response for the upload with this identifier.
    pub fn new(id: &str) -> (response: UploadResponse)
        ensures
            response.wf(),
            response.id@ == id@,
            response.png_url@ == "/p/"@ + id@ + "/png"@,
            response.og_url@ == "/p/"@ + id@,
    {
        UploadResponse { id: id.to_owned(), png_url: png_url(id), og_url: og_url(id) }
    }
}

/// Whether `address` is `route` with `id` in the place of `:id`.
pub open spec fn fills_route(address: Seq<char>, route: Seq<char>, id: Seq<char>) -> bool {
    exists|before: Seq<char>, after: Seq<char>|
        route == before + ":id"@ + after && address == #[trigger] (before + id + after)
}

/// The addresses lead to the routes under which they are served, with the
/// identifier in its place.
pub proof fn law_addresses_fill_routes(id: Seq<char>)
    ensures
        fills_route(png_address(id), PNG_ROUTE@, id),
        fills_route(og_address(id), OG_ROUTE@, id),
{
    reveal_strlit("/p/:id/png");
    reveal_strlit("/p/:id");
    reveal_strlit("/p/");
    reveal_strlit(":id");
    reveal_strlit("/png");
    reveal_strlit("");
    assert(PNG_ROUTE@ =~= "/p/"@ + ":id"@ + "/png"@);
    assert(png_address(id) == "/p/"@ + id + "/png"@);
    assert(OG_ROUTE@ =~= "/p/"@ + ":id"@ + ""@);
    assert(og_address(id) =~= "/p/"@ + id + ""@);
}

/// Files are named after the whole identifier, uploads and pictures each in their
/// own directory and with their own ending, and the address of a picture goes on
/// where its share address ends.
pub proof fn law_names_hold_the_identifier(id: Seq<char>)
    ensures
        nodes_key(id).directory == Directory::Nodes,
        nodes_key(id).name == id + ".nodes"@,
        png_key(id).directory == Directory::Png,
        png_key(id).name == id + ".png"@,
        og_address(id) == "/p/"@ + id,
        png_address(id) == og_address(id) + "/png"@,
{
}

/// Different identifiers have different files and different addresses, and no
/// picture shares its file with an upload.
pub proof fn law_names_are_distinct(a: Seq<char>, b: Seq<char>)
    ensures
        nodes_key(a) == nodes_key(b) ==> a == b,
        png_key(a) == png_key(b) ==> a == b,
        nodes_key(a) != png_key(b),
        png_address(a) == png_address(b) ==> a == b,
        og_address(a) == og_address(b) ==> a == b,
{
    lemma_affixes_cancel(""@, a, b, ".nodes"@);
    lemma_affixes_cancel(""@, a, b, ".png"@);
    lemma_affixes_cancel("/p/"@, a, b, "/png"@);
    lemma_affixes_cancel("/p/"@, a, b, ""@);
    reveal_strlit("");
    assert(""@ + a =~= a && ""@ + b =~= b);
    assert("/p/"@ + a + ""@ =~= "/p/"@ + a && "/p/"@ + b + ""@ =~= "/p/"@ + b);
}

proof fn lemma_affixes_cancel(prefix: Seq<char>, a: Seq<char>, b: Seq<char>, suffix: Seq<char>)
    ensures
        prefix + a + suffix == prefix + b + suffix ==> a == b,
{
    let x = prefix + a + suffix;
    let y = prefix + b + suffix;
    if x == y {
        assert(x.len() == prefix.len() + a.len() + suffix.len());
        assert(y.len() == prefix.len() + b.len() + suffix.len());
        assert(x.subrange(prefix.len() as int, (prefix.len() + a.len()) as int) =~= a);
        assert(y.subrange(prefix.len() as int, (prefix.len() + b.len()) as int) =~= b);
    }
}

} // verus!
