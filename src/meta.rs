use vstd::prelude::*;

verus! {

/// Name of the content file that every post directory holds.
pub const CONTENT_FILE: &'static str = "post.md";

/// Metadata of one post, as read from its directory.
pub struct BlogMeta {
    pub id: String,
    pub title: String,
    pub author: String,
    pub description: String,
    pub image: Option<String>,
    pub ordering: usize,
}

impl Clone for BlogMeta {
    fn clone(&self) -> (r: BlogMeta)
        ensures
            r == *self,
    {
        let image = match &self.image {
            Some(s) => Some(s.clone()),
            None => None,
        };
        BlogMeta {
            id: self.id.clone(),
            title: self.title.clone(),
            author: self.author.clone(),
            description: self.description.clone(),
            image,
            ordering: self.ordering,
        }
    }
}

/// One catalog entry: a post's metadata and the path of its content file.
pub struct BlogPost {
    pub filepath: String,
    pub meta: BlogMeta,
}

/// What a catalog holds for one post.
pub ghost struct PostView {
    pub path: Seq<char>,
    pub meta: BlogMeta,
}

impl View for BlogPost {
    type V = PostView;

    open spec fn view(&self) -> PostView {
        PostView { path: self.filepath@, meta: self.meta }
    }
}

impl BlogPost {
    /// The key under which the post is catalogued.
    pub open spec fn key(&self) -> Seq<char> {
        self.meta.id@
    }
}

impl Clone for BlogPost {
    fn clone(&self) -> (r: BlogPost)
        ensures
            r == *self,
    {
        BlogPost { filepath: self.filepath.clone(), meta: self.meta.clone() }
    }
}

/// `name` placed inside the directory `dir`, with one separator between them.
pub open spec fn join_path(dir: Seq<char>, name: Seq<char>) -> Seq<char> {
    if dir.len() == 0 || dir.last() == '/' {
        dir + name
    } else {
        dir + seq!['/'] + name
    }
}

/// The content file of the post whose directory is `dir`.
pub open spec fn content_path_of(dir: Seq<char>) -> Seq<char> {
    join_path(dir, CONTENT_FILE@)
}

/// Path of the content file inside the post directory `dir`.
pub fn content_path(dir: &String) -> (r: String)
    ensures
        r@ == content_path_of(dir@),
{
    let n = dir.as_str().unicode_len();
    let mut r = dir.clone();
    if n > 0 && dir.as_str().get_char(n - 1) != '/' {
        r.append("/");
    }
    r.append(CONTENT_FILE);
    proof {
        reveal_strlit("/");
        reveal_strlit("post.md");
    }
    r
}

/// One child of the posts root, as found by a scan: its path, whether it is a
/// directory, and the metadata read from it, where that succeeded.
pub struct ScanEntry {
    pub dir: String,
    pub is_dir: bool,
    pub meta: Option<BlogMeta>,
}

impl ScanEntry {
    /// The post this entry contributes to a catalog, if any: a directory whose
    /// metadata was read.
    pub open spec fn post(&self) -> Option<PostView> {
        match self.meta {
            Some(m) if self.is_dir => Some(PostView { path: content_path_of(self.dir@), meta: m }),
            _ => None,
        }
    }
}

} // verus!
