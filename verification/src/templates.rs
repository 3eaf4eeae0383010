//! Note templates: categories and the layout of the template store.
//!
//! Only the path and name computations live here; reading and writing the
//! template files themselves is the caller's concern.

use vstd::prelude::*;
use vstd::string::StringExecFns;
use crate::text::str_eq;

verus! {

/// The fixed set of template categories.
#[derive(Debug, Clone, Copy, PartialEq, Eq, Structural)]
pub enum TemplateCategory {
    Daily,
    Weekly,
    Goals,
    Notes,
    Custom,
}

/// The directory name of a category.
pub open spec fn spec_category_name(c: TemplateCategory) -> Seq<char> {
    match c {
        TemplateCategory::Daily => "daily"@,
        TemplateCategory::Weekly => "weekly"@,
        TemplateCategory::Goals => "goals"@,
        TemplateCategory::Notes => "notes"@,
        TemplateCategory::Custom => "custom"@,
    }
}

/// The category a name denotes, if any.
pub open spec fn spec_category_of(s: Seq<char>) -> Option<TemplateCategory> {
    if s == "daily"@ {
        Some(TemplateCategory::Daily)
    } else if s == "weekly"@ {
        Some(TemplateCategory::Weekly)
    } else if s == "goals"@ {
        Some(TemplateCategory::Goals)
    } else if s == "notes"@ {
        Some(TemplateCategory::Notes)
    } else if s == "custom"@ {
        Some(TemplateCategory::Custom)
    } else {
        None
    }
}

impl TemplateCategory {
    pub fn as_str(&self) -> (r: &'static str)
        ensures
            r@ == spec_category_name(*self),
    {
        match self {
            TemplateCategory::Daily => "daily",
            TemplateCategory::Weekly => "weekly",
            TemplateCategory::Goals => "goals",
            TemplateCategory::Notes => "notes",
            TemplateCategory::Custom => "custom",
        }
    }

    pub fn from_str(s: &str) -> (r: Option<TemplateCategory>)
        ensures
            r == spec_category_of(s@),
    {
        if str_eq(s, "daily") {
            Some(TemplateCategory::Daily)
        } else if str_eq(s, "weekly") {
            Some(TemplateCategory::Weekly)
        } else if str_eq(s, "goals") {
            Some(TemplateCategory::Goals)
        } else if str_eq(s, "notes") {
            Some(TemplateCategory::Notes)
        } else if str_eq(s, "custom") {
            Some(TemplateCategory::Custom)
        } else {
            None
        }
    }

    pub fn all_categories() -> (r: Vec<TemplateCategory>)
        ensures
            r@.len() == 5,
            r@[0] == TemplateCategory::Daily,
            r@[1] == TemplateCategory::Weekly,
            r@[2] == TemplateCategory::Goals,
            r@[3] == TemplateCategory::Notes,
            r@[4] == TemplateCategory::Custom,
    {
        let mut v: Vec<TemplateCategory> = Vec::new();
        v.push(TemplateCategory::Daily);
        v.push(TemplateCategory::Weekly);
        v.push(TemplateCategory::Goals);
        v.push(TemplateCategory::Notes);
        v.push(TemplateCategory::Custom);
        v
    }
}

/// Descriptive data for one stored template file.
#[derive(Debug, Clone, PartialEq)]
pub struct TemplateInfo {
    pub name: String,
    pub path: String,
    pub category: String,
    pub created_at: u64,
    pub modified_at: u64,
}

/// Computes where templates live under an application data directory.
#[derive(Debug, Clone, PartialEq)]
pub struct TemplateManager {
    pub templates_dir: String,
}

impl TemplateManager {
    /// A manager rooted at `app_data_dir/templates`.
    pub fn new(app_data_dir: &str) -> (r: TemplateManager)
        ensures
            r.templates_dir@ == app_data_dir@ + "/templates"@,
    {
        let mut dir = app_data_dir.to_owned();
        dir.append("/templates");
        TemplateManager { templates_dir: dir }
    }

    /// The directory holding one category's templates.
    pub fn get_category_path(&self, category: &TemplateCategory) -> (r: String)
        ensures
            r@ == self.templates_dir@ + "/"@ + spec_category_name(*category),
    {
        let mut p = self.templates_dir.clone();
        p.append("/");
        p.append(category.as_str());
        p
    }

    /// The file a template of the given category and name is stored in.
    pub fn template_file_path(&self, category: &TemplateCategory, name: &str) -> (r: String)
        ensures
            r@ == self.templates_dir@ + "/"@ + spec_category_name(*category) + "/"@ + name@
                + ".json"@,
    {
        let mut p = self.get_category_path(category);
        p.append("/");
        p.append(name);
        p.append(".json");
        p
    }
}

} // verus!
