//! The catalog of Whisper models and the state of their cached files.
use vstd::prelude::*;
use crate::paths::{ends_with_component, is_joined, is_plain_file_name, is_verbatim, join_path};
use crate::text::push_str;

verus! {

#[derive(Debug, Clone)]
pub struct ModelDescriptor {
    pub id: String,
    pub name: String,
    pub file_name: String,
    pub download_url: String,
    pub size_mb: u64,
    pub recommended_min_ram_gb: u64,
    pub languages: String,
}

/// A model descriptor by the characters of its fields.
pub struct DescriptorView {
    pub id: Seq<char>,
    pub name: Seq<char>,
    pub file_name: Seq<char>,
    pub download_url: Seq<char>,
    pub size_mb: u64,
    pub recommended_min_ram_gb: u64,
    pub languages: Seq<char>,
}

impl View for ModelDescriptor {
    type V = DescriptorView;

    open spec fn view(&self) -> DescriptorView {
        DescriptorView {
            id: self.id@,
            name: self.name@,
            file_name: self.file_name@,
            download_url: self.download_url@,
            size_mb: self.size_mb,
            recommended_min_ram_gb: self.recommended_min_ram_gb,
            languages: self.languages@,
        }
    }
}

#[derive(Debug, Clone)]
pub struct ModelCacheStatus {
    pub model: ModelDescriptor,
    pub is_downloaded: bool,
    pub path: String,
    pub bytes_on_disk: u64,
}

#[derive(Debug)]
pub enum ModelCatalogError {
    UnknownModel(String),
    Io(std::io::Error),
}

/// The three Whisper models that can be downloaded.
pub open spec fn catalog_spec() -> Seq<DescriptorView> {
    seq![
        DescriptorView {
            id: "whisper-base.en"@,
            name: "Whisper Base English"@,
            file_name: "ggml-base.en.bin"@,
            download_url: "https://huggingface.co/ggerganov/whisper.cpp/resolve/main/ggml-base.en.bin"@,
            size_mb: 142,
            recommended_min_ram_gb: 4,
            languages: "English"@,
        },
        DescriptorView {
            id: "whisper-small.en"@,
            name: "Whisper Small English"@,
            file_name: "ggml-small.en.bin"@,
            download_url: "https://huggingface.co/ggerganov/whisper.cpp/resolve/main/ggml-small.en.bin"@,
            size_mb: 466,
            recommended_min_ram_gb: 6,
            languages: "English"@,
        },
        DescriptorView {
            id: "whisper-base"@,
            name: "Whisper Base Multilingual"@,
            file_name: "ggml-base.bin"@,
            download_url: "https://huggingface.co/ggerganov/whisper.cpp/resolve/main/ggml-base.bin"@,
            size_mb: 142,
            recommended_min_ram_gb: 4,
            languages: "Multilingual"@,
        },
    ]
}

/// The catalog position of the model with this id, if any.
pub open spec fn catalog_index(id: Seq<char>) -> Option<int> {
    if catalog_spec()[0].id == id {
        Some(0)
    } else if catalog_spec()[1].id == id {
        Some(1)
    } else if catalog_spec()[2].id == id {
        Some(2)
    } else {
        None
    }
}

/// The catalog ids are distinct, so an id names at most one model, and the
/// model it names carries that id.
pub proof fn law_catalog_ids_name_one_model(id: Seq<char>)
    ensures
        forall|i: int, j: int| 0 <= i < j < 3 ==> catalog_spec()[i].id != catalog_spec()[j].id,
        catalog_index(id) matches Some(i) ==> 0 <= i < 3 && catalog_spec()[i].id == id,
        catalog_index(id) is None ==> forall|i: int| 0 <= i < 3 ==> catalog_spec()[i].id != id,
{
    reveal_strlit("whisper-base.en");
    reveal_strlit("whisper-small.en");
    reveal_strlit("whisper-base");
    assert("whisper-base.en"@.len() == 15);
    assert("whisper-small.en"@.len() == 16);
    assert("whisper-base"@.len() == 12);
}

/// Where the catalog's model files are downloaded from.
pub open spec fn model_download_base() -> Seq<char> {
    "https://huggingface.co/ggerganov/whisper.cpp/resolve/main/"@
}

/// Every catalog model is downloaded from the model directory of the
/// whisper.cpp repository, under its own file name, and that file name is
/// `ggml-` and the model id without its `whisper-` prefix, then `.bin`. So
/// the file a download fetches is the one that `status` and `model_path`
/// look for, and no two models share a file.
pub proof fn law_catalog_downloads_own_file()
    ensures
        forall|i: int|
            0 <= i < 3 ==> #[trigger] catalog_spec()[i].download_url == model_download_base()
                + catalog_spec()[i].file_name,
        forall|i: int|
            0 <= i < 3 ==> "whisper-"@.len() <= #[trigger] catalog_spec()[i].id.len()
                && catalog_spec()[i].id.subrange(0, 8) == "whisper-"@
                && catalog_spec()[i].file_name == "ggml-"@ + catalog_spec()[i].id.subrange(
                8,
                catalog_spec()[i].id.len() as int,
            ) + ".bin"@,
        forall|i: int, j: int|
            0 <= i < j < 3 ==> #[trigger] catalog_spec()[i].file_name
                != #[trigger] catalog_spec()[j].file_name,
{
    reveal_strlit("https://huggingface.co/ggerganov/whisper.cpp/resolve/main/");
    reveal_strlit("https://huggingface.co/ggerganov/whisper.cpp/resolve/main/ggml-base.en.bin");
    reveal_strlit("https://huggingface.co/ggerganov/whisper.cpp/resolve/main/ggml-small.en.bin");
    reveal_strlit("https://huggingface.co/ggerganov/whisper.cpp/resolve/main/ggml-base.bin");
    reveal_strlit("ggml-base.en.bin");
    reveal_strlit("ggml-small.en.bin");
    reveal_strlit("ggml-base.bin");
    reveal_strlit("whisper-base.en");
    reveal_strlit("whisper-small.en");
    reveal_strlit("whisper-base");
    reveal_strlit("whisper-");
    reveal_strlit("ggml-");
    reveal_strlit(".bin");
    let c = catalog_spec();
    assert(c[0].download_url =~= model_download_base() + c[0].file_name);
    assert(c[1].download_url =~= model_download_base() + c[1].file_name);
    assert(c[2].download_url =~= model_download_base() + c[2].file_name);
    assert(c[0].id.subrange(0, 8) =~= "whisper-"@);
    assert(c[1].id.subrange(0, 8) =~= "whisper-"@);
    assert(c[2].id.subrange(0, 8) =~= "whisper-"@);
    assert(c[0].file_name =~= "ggml-"@ + c[0].id.subrange(8, c[0].id.len() as int) + ".bin"@);
    assert(c[1].file_name =~= "ggml-"@ + c[1].id.subrange(8, c[1].id.len() as int) + ".bin"@);
    assert(c[2].file_name =~= "ggml-"@ + c[2].id.subrange(8, c[2].id.len() as int) + ".bin"@);
    assert(c[0].file_name.len() != c[1].file_name.len());
    assert(c[0].file_name.len() != c[2].file_name.len());
    assert(c[1].file_name.len() != c[2].file_name.len());
}

/// Every catalog file name is a plain file name.
pub proof fn lemma_catalog_file_names_plain()
    ensures
        forall|i: int| 0 <= i < 3 ==> is_plain_file_name(#[trigger] catalog_spec()[i].file_name),
{
    lemma_plain_literal_base_en();
    lemma_plain_literal_small_en();
    lemma_plain_literal_base();
}

proof fn lemma_plain_literal_base_en()
    ensures
        is_plain_file_name("ggml-base.en.bin"@),
{
    reveal_strlit("ggml-base.en.bin");
    let s = "ggml-base.en.bin"@;
    assert(s.len() == 16);
    assert(s != seq!['.']);
    assert(s != seq!['.', '.']);
    assert forall|i: int| 0 <= i < s.len() implies {
        let c = #[trigger] s[i];
        c != '/' && c != '\\' && c != ':'
    } by {}
}

proof fn lemma_plain_literal_small_en()
    ensures
        is_plain_file_name("ggml-small.en.bin"@),
{
    reveal_strlit("ggml-small.en.bin");
    let s = "ggml-small.en.bin"@;
    assert(s.len() == 17);
    assert(s != seq!['.']);
    assert(s != seq!['.', '.']);
    assert forall|i: int| 0 <= i < s.len() implies {
        let c = #[trigger] s[i];
        c != '/' && c != '\\' && c != ':'
    } by {}
}

proof fn lemma_plain_literal_base()
    ensures
        is_plain_file_name("ggml-base.bin"@),
{
    reveal_strlit("ggml-base.bin");
    let s = "ggml-base.bin"@;
    assert(s.len() == 13);
    assert(s != seq!['.']);
    assert(s != seq!['.', '.']);
    assert forall|i: int| 0 <= i < s.len() implies {
        let c = #[trigger] s[i];
        c != '/' && c != '\\' && c != ':'
    } by {}
}

/// The model catalog.
pub fn catalog() -> (res: Vec<ModelDescriptor>)
    ensures
        res@.map_values(|d: ModelDescriptor| d@) == catalog_spec(),
{
    let res = vec![
        ModelDescriptor {
            id: String::from_str("whisper-base.en"),
            name: String::from_str("Whisper Base English"),
            file_name: String::from_str("ggml-base.en.bin"),
            download_url: String::from_str(
                "https://huggingface.co/ggerganov/whisper.cpp/resolve/main/ggml-base.en.bin",
            ),
            size_mb: 142,
            recommended_min_ram_gb: 4,
            languages: String::from_str("English"),
        },
        ModelDescriptor {
            id: String::from_str("whisper-small.en"),
            name: String::from_str("Whisper Small English"),
            file_name: String::from_str("ggml-small.en.bin"),
            download_url: String::from_str(
                "https://huggingface.co/ggerganov/whisper.cpp/resolve/main/ggml-small.en.bin",
            ),
            size_mb: 466,
            recommended_min_ram_gb: 6,
            languages: String::from_str("English"),
        },
        ModelDescriptor {
            id: String::from_str("whisper-base"),
            name: String::from_str("Whisper Base Multilingual"),
            file_name: String::from_str("ggml-base.bin"),
            download_url: String::from_str(
                "https://huggingface.co/ggerganov/whisper.cpp/resolve/main/ggml-base.bin",
            ),
            size_mb: 142,
            recommended_min_ram_gb: 4,
            languages: String::from_str("Multilingual"),
        },
    ];
    assert(res@.map_values(|d: ModelDescriptor| d@) =~= catalog_spec());
    res
}

/// The cache state of `model` whose file at `path` holds `bytes`.
pub open spec fn cache_status_of(
    st: ModelCacheStatus,
    model: DescriptorView,
    bytes: u64,
) -> bool {
    &&& st.model@ == model
    &&& st.is_downloaded == (bytes > 0)
    &&& st.bytes_on_disk == bytes
    &&& ends_with_component(st.path@, model.file_name)
}

/// `path` names the file `file_name` inside the directory `dir`.
pub open spec fn is_file_in(path: Seq<char>, dir: Seq<char>, file_name: Seq<char>) -> bool {
    &&& ends_with_component(path, file_name)
    &&& !is_verbatim(dir) ==> is_joined(path, dir, file_name)
}

/// What clearing the cache removes.
#[derive(Debug, Clone)]
pub enum CacheClearTarget {
    /// One model file.
    File(String),
    /// The whole model directory.
    Directory(String),
}

/// The directory that holds downloaded model files, and the path of each
/// catalog model's file inside it.
#[derive(Debug)]
pub struct ModelCatalog {
    model_dir: String,
    /// The file path of each catalog model, in catalog order.
    file_paths: Vec<String>,
}

/// The cache state that the catalog `c` reports for its `i`-th model, whose
/// file holds `bytes` bytes.
pub open spec fn reports_model(c: ModelCatalog, i: int, st: ModelCacheStatus, bytes: u64) -> bool {
    &&& cache_status_of(st, catalog_spec()[i], bytes)
    &&& st.path@ == c.model_file_path(i)
    &&& is_file_in(st.path@, c.spec_model_dir(), catalog_spec()[i].file_name)
}

/// A joined path under a directory that is not verbatim is not verbatim
/// either.
proof fn lemma_joined_not_verbatim(res: Seq<char>, base: Seq<char>, name: Seq<char>)
    requires
        !is_verbatim(base),
        is_joined(res, base, name),
        forall|k: int| 0 <= k < name.len() ==> name[k] != '?',
    ensures
        !is_verbatim(res),
{
    if base.len() >= 3 {
        assert(res[0] == base[0] && res[1] == base[1] && res[2] == base[2]);
    } else if res.len() >= 3 {
        if res == base + name {
            assert(res[2] == name[2 - base.len()]);
        } else if res == base + seq!['/'] + name {
            if base.len() < 2 {
                assert(res[2] == name[1 - base.len()]);
            } else {
                assert(res[2] == '/');
            }
        } else {
            if base.len() < 2 {
                assert(res[2] == name[1 - base.len()]);
            } else {
                assert(res[2] == '\\');
            }
        }
    }
}

impl ModelCatalog {
    /// Every catalog model's file path lies inside the model directory.
    #[verifier::type_invariant]
    spec fn paths_inside_model_dir(self) -> bool {
        &&& self.file_paths.len() == 3
        &&& forall|i: int|
            0 <= i < 3 ==> #[trigger] is_file_in(
                self.file_paths@[i]@,
                self.model_dir@,
                catalog_spec()[i].file_name,
            )
    }

    pub closed spec fn spec_model_dir(&self) -> Seq<char> {
        self.model_dir@
    }

    /// The path of the `i`-th catalog model's file.
    pub closed spec fn model_file_path(&self, i: int) -> Seq<char> {
        self.file_paths@[i]@
    }

    /// The catalog whose files live in `models` inside `data_dir`.
    pub fn new(data_dir: &str) -> (c: Self)
        ensures
            ends_with_component(c.spec_model_dir(), "models"@),
            !is_verbatim(data_dir@) ==> is_joined(c.spec_model_dir(), data_dir@, "models"@)
                && !is_verbatim(c.spec_model_dir()),
    {
        proof {
            reveal_strlit("models");
            let s = "models"@;
            assert(s.len() == 6);
            assert(s != seq!['.']);
            assert(s != seq!['.', '.']);
            assert forall|i: int| 0 <= i < s.len() implies {
                let c = #[trigger] s[i];
                c != '/' && c != '\\' && c != ':'
            } by {}
        }
        let model_dir = join_path(data_dir, "models");
        proof {
            if !is_verbatim(data_dir@) {
                lemma_joined_not_verbatim(model_dir@, data_dir@, "models"@);
            }
        }
        let models = catalog();
        proof {
            lemma_catalog_file_names_plain();
        }
        assert(models@.map_values(|d: ModelDescriptor| d@).len() == 3);
        let mut file_paths: Vec<String> = Vec::new();
        let mut i: usize = 0;
        while i < models.len()
            invariant
                models@.map_values(|d: ModelDescriptor| d@) == catalog_spec(),
                models.len() == 3,
                i <= 3,
                file_paths.len() == i,
                forall|k: int| 0 <= k < 3 ==> is_plain_file_name(#[trigger] catalog_spec()[k].file_name),
                forall|k: int|
                    0 <= k < i ==> #[trigger] is_file_in(
                        file_paths@[k]@,
                        model_dir@,
                        catalog_spec()[k].file_name,
                    ),
            decreases models.len() - i,
        {
            assert(models@[i as int]@ == catalog_spec()[i as int]);
            assert(is_plain_file_name(catalog_spec()[i as int].file_name));
            let p = join_path(model_dir.as_str(), models[i].file_name.as_str());
            file_paths.push(p);
            assert(is_file_in(file_paths@[i as int]@, model_dir@, catalog_spec()[i as int].file_name));
            i = i + 1;
        }
        ModelCatalog { model_dir, file_paths }
    }

    pub fn model_dir(&self) -> (d: &str)
        ensures
            d@ == self.spec_model_dir(),
    {
        self.model_dir.as_str()
    }

    /// A copy of the catalog.
    pub fn duplicate(&self) -> (r: Self)
        ensures
            r.spec_model_dir() == self.spec_model_dir(),
            forall|i: int| 0 <= i < 3 ==> r.model_file_path(i) == self.model_file_path(i),
    {
        proof {
            use_type_invariant(self);
        }
        let mut file_paths: Vec<String> = Vec::new();
        let mut i: usize = 0;
        while i < self.file_paths.len()
            invariant
                self.file_paths.len() == 3,
                i <= 3,
                file_paths.len() == i,
                forall|k: int| 0 <= k < i ==> file_paths@[k]@ == self.file_paths@[k]@,
            decreases 3 - i,
        {
            file_paths.push(self.file_paths[i].clone());
            i = i + 1;
        }
        let r = ModelCatalog { model_dir: self.model_dir.clone(), file_paths };
        assert forall|k: int| 0 <= k < 3 implies #[trigger] is_file_in(
            r.file_paths@[k]@,
            r.model_dir@,
            catalog_spec()[k].file_name,
        ) by {
            assert(is_file_in(self.file_paths@[k]@, self.model_dir@, catalog_spec()[k].file_name));
        }
        r
    }

    /// The catalog position of the model with this id.
    fn position(id: &str) -> (r: Option<usize>)
        ensures
            match catalog_index(id@) {
                Some(i) => r == Some(i as usize),
                None => r is None,
            },
    {
        let models = catalog();
        assert(models@.map_values(|d: ModelDescriptor| d@).len() == 3);
        let wanted = String::from_str(id);
        let mut i: usize = 0;
        while i < models.len()
            invariant
                models@.map_values(|d: ModelDescriptor| d@) == catalog_spec(),
                models.len() == 3,
                wanted@ == id@,
                i <= models.len(),
                forall|j: int| 0 <= j < i ==> catalog_spec()[j].id != id@,
            decreases models.len() - i,
        {
            assert(models@[i as int]@ == catalog_spec()[i as int]);
            if models[i].id == wanted {
                assert(catalog_spec()[i as int].id == id@);
                if i == 1 {
                    assert(catalog_spec()[0].id != id@);
                } else if i == 2 {
                    assert(catalog_spec()[0].id != id@);
                    assert(catalog_spec()[1].id != id@);
                }
                return Some(i);
            }
            i = i + 1;
        }
        assert(catalog_spec()[0].id != id@);
        assert(catalog_spec()[1].id != id@);
        assert(catalog_spec()[2].id != id@);
        None
    }

    /// The catalog entry with this id.
    pub fn find(id: &str) -> (res: Result<ModelDescriptor, ModelCatalogError>)
        ensures
            match catalog_index(id@) {
                Some(i) => res matches Ok(m) && m@ == catalog_spec()[i],
                None => res matches Err(ModelCatalogError::UnknownModel(s)) && s@ == id@,
            },
    {
        match ModelCatalog::position(id) {
            Some(i) => {
                let models = catalog();
                assert(models@.map_values(|d: ModelDescriptor| d@).len() == 3);
                assert(models@[i as int]@ == catalog_spec()[i as int]);
                Ok(models[i].clone_descriptor())
            },
            None => Err(ModelCatalogError::UnknownModel(String::from_str(id))),
        }
    }

    /// The cache state of the catalog's `i`-th model.
    fn status_at(&self, i: usize, bytes_on_disk: u64) -> (st: ModelCacheStatus)
        requires
            i < 3,
        ensures
            reports_model(*self, i as int, st, bytes_on_disk),
    {
        proof {
            use_type_invariant(self);
        }
        let models = catalog();
        assert(models@.map_values(|d: ModelDescriptor| d@).len() == 3);
        assert(models@[i as int]@ == catalog_spec()[i as int]);
        assert(is_file_in(self.file_paths@[i as int]@, self.model_dir@, catalog_spec()[i as int].file_name));
        ModelCacheStatus {
            model: models[i].clone_descriptor(),
            is_downloaded: bytes_on_disk > 0,
            path: self.file_paths[i].clone(),
            bytes_on_disk,
        }
    }

    /// The cache state of every catalog model; `bytes_on_disk[i]` is the size
    /// of the `i`-th model's file (a missing entry counts as no file).
    pub fn list(&self, bytes_on_disk: &Vec<u64>) -> (res: Vec<ModelCacheStatus>)
        ensures
            res.len() == catalog_spec().len(),
            forall|i: int|
                0 <= i < res.len() ==> reports_model(
                    *self,
                    i,
                    #[trigger] res@[i],
                    if i < bytes_on_disk.len() {
                        bytes_on_disk@[i]
                    } else {
                        0
                    },
                ),
    {
        let mut res: Vec<ModelCacheStatus> = Vec::new();
        let mut i: usize = 0;
        while i < 3
            invariant
                i <= 3,
                res.len() == i,
                forall|j: int|
                    0 <= j < i ==> reports_model(
                        *self,
                        j,
                        #[trigger] res@[j],
                        if j < bytes_on_disk.len() {
                            bytes_on_disk@[j]
                        } else {
                            0
                        },
                    ),
            decreases 3 - i,
        {
            let bytes: u64 = if i < bytes_on_disk.len() {
                bytes_on_disk[i]
            } else {
                0
            };
            let st = self.status_at(i, bytes);
            res.push(st);
            i = i + 1;
        }
        res
    }

    /// The cache state of the model with this id, whose file holds
    /// `bytes_on_disk` bytes.
    pub fn status(&self, id: &str, bytes_on_disk: u64) -> (res: Result<
        ModelCacheStatus,
        ModelCatalogError,
    >)
        ensures
            match catalog_index(id@) {
                Some(i) => res matches Ok(st) && reports_model(*self, i, st, bytes_on_disk),
                None => res matches Err(ModelCatalogError::UnknownModel(s)) && s@ == id@,
            },
    {
        match ModelCatalog::position(id) {
            Some(i) => Ok(self.status_at(i, bytes_on_disk)),
            None => Err(ModelCatalogError::UnknownModel(String::from_str(id))),
        }
    }

    /// The path of the file of the model with this id.
    pub fn model_path(&self, id: &str) -> (res: Result<String, ModelCatalogError>)
        ensures
            match catalog_index(id@) {
                Some(i) => res matches Ok(p) && p@ == self.model_file_path(i) && is_file_in(
                    p@,
                    self.spec_model_dir(),
                    catalog_spec()[i].file_name,
                ),
                None => res matches Err(ModelCatalogError::UnknownModel(s)) && s@ == id@,
            },
    {
        proof {
            use_type_invariant(self);
        }
        match ModelCatalog::position(id) {
            Some(i) => {
                assert(is_file_in(self.file_paths@[i as int]@, self.model_dir@, catalog_spec()[i as int].file_name));
                Ok(self.file_paths[i].clone())
            },
            None => Err(ModelCatalogError::UnknownModel(String::from_str(id))),
        }
    }

    /// What clearing the cache removes: the file of the given model, or the
    /// whole model directory when no model is given.
    pub fn clear_cache_target(&self, id: Option<String>) -> (res: Result<
        CacheClearTarget,
        ModelCatalogError,
    >)
        ensures
            match id {
                None => res matches Ok(CacheClearTarget::Directory(d)) && d@
                    == self.spec_model_dir(),
                Some(id) => match catalog_index(id@) {
                    Some(i) => res matches Ok(CacheClearTarget::File(p)) && p@
                        == self.model_file_path(i) && is_file_in(
                        p@,
                        self.spec_model_dir(),
                        catalog_spec()[i].file_name,
                    ),
                    None => res matches Err(ModelCatalogError::UnknownModel(s)) && s@ == id@,
                },
            },
    {
        match id {
            Some(id) => {
                let path = self.model_path(id.as_str())?;
                Ok(CacheClearTarget::File(path))
            },
            None => Ok(CacheClearTarget::Directory(self.model_dir.clone())),
        }
    }
}

/// `list` and `status` report the same cache state for a model: its
/// descriptor, its file path and whether it is downloaded agree whenever
/// its file holds the same number of bytes.
pub proof fn law_list_and_status_agree(
    c: ModelCatalog,
    i: int,
    bytes: u64,
    listed: ModelCacheStatus,
    single: ModelCacheStatus,
)
    requires
        0 <= i < 3,
        reports_model(c, i, listed, bytes),
        reports_model(c, i, single, bytes),
    ensures
        listed.model@ == single.model@,
        listed.path@ == single.path@,
        listed.is_downloaded == single.is_downloaded,
        listed.bytes_on_disk == single.bytes_on_disk,
{
}

/// Clearing one model's cache removes the very file that `status` and
/// `list` report for that model; once it is gone (no bytes on disk), the
/// model is reported as not downloaded.
pub proof fn law_cleared_model_is_not_downloaded(
    c: ModelCatalog,
    i: int,
    target: CacheClearTarget,
    after: ModelCacheStatus,
)
    requires
        0 <= i < 3,
        target matches CacheClearTarget::File(p) && p@ == c.model_file_path(i),
        reports_model(c, i, after, 0),
    ensures
        target matches CacheClearTarget::File(p) && p@ == after.path@,
        !after.is_downloaded,
        after.bytes_on_disk == 0,
{
}

impl ModelDescriptor {
    pub fn clone_descriptor(&self) -> (r: Self)
        ensures
            r@ == self@,
    {
        ModelDescriptor {
            id: self.id.clone(),
            name: self.name.clone(),
            file_name: self.file_name.clone(),
            download_url: self.download_url.clone(),
            size_mb: self.size_mb,
            recommended_min_ram_gb: self.recommended_min_ram_gb,
            languages: self.languages.clone(),
        }
    }
}

impl ModelCatalogError {
    /// The error's message.
    pub fn message(&self) -> (m: String)
        ensures
            self matches ModelCatalogError::UnknownModel(id) ==> m@ == "unknown model id: "@ + id@,
            self is Io ==> m@.len() >= "failed to inspect model cache: "@.len() && m@.subrange(
                0,
                "failed to inspect model cache: "@.len() as int,
            ) == "failed to inspect model cache: "@,
    {
        match self {
            ModelCatalogError::UnknownModel(id) => {
                let mut m = String::from_str("unknown model id: ");
                push_str(&mut m, id.as_str());
                m
            },
            ModelCatalogError::Io(e) => {
                let mut m = String::from_str("failed to inspect model cache: ");
                let ghost prefix = m@;
                let detail = crate::external::io_error_message(e);
                push_str(&mut m, detail.as_str());
                assert(m@.subrange(0, prefix.len() as int) =~= prefix);
                m
            },
        }
    }
}

} // verus!
