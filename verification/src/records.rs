//! The typed records of the catalog and the one-line form in which each is
//! shown.

use crate::transport::API_BASE_URL;
use vstd::prelude::*;
use vstd::string::*;

verus! {

/// An organisation that publishes software.
#[derive(Debug)]
pub struct Publisher {
    pub id: String,
    pub alternative_id: Option<String>,
    pub description: String,
    pub email: Option<String>,
    pub active: bool,
}

/// A software entry of the catalog.
#[derive(Debug)]
pub struct Software {
    pub id: String,
    pub url: String,
    pub publiccode_yml: String,
    pub active: bool,
}

/// How a flag is written.
pub open spec fn flag_text(flag: bool) -> Seq<char> {
    if flag {
        "true"@
    } else {
        "false"@
    }
}

/// How an optional field is written: its text, or nothing where it is unset.
pub open spec fn optional_text(field: Option<String>) -> Seq<char> {
    match field {
        Some(text) => text@,
        None => Seq::empty(),
    }
}

fn push_flag(line: &mut String, flag: bool)
    ensures
        final(line)@ == old(line)@ + flag_text(flag),
{
    if flag {
        line.append("true");
    } else {
        line.append("false");
    }
}

fn push_optional(line: &mut String, field: &Option<String>)
    ensures
        final(line)@ == old(line)@ + optional_text(*field),
{
    match field {
        Some(text) => line.append(text.as_str()),
        None => {
            assert(line@ + Seq::<char>::empty() =~= line@);
        },
    }
}

impl Publisher {
    /// The line that shows this publisher: its address in the catalog, then
    /// each field under its name.
    pub open spec fn line(&self) -> Seq<char> {
        API_BASE_URL@ + "/publishers/"@ + self.id@ + " alternativeId="@ + optional_text(
            self.alternative_id,
        ) + " description="@ + self.description@ + " email="@ + optional_text(self.email)
            + " active="@ + flag_text(self.active)
    }

    /// Writes the publisher as one line.
    pub fn render(&self) -> (line: String)
        ensures
            line@ == self.line(),
    {
        let mut line = API_BASE_URL.to_owned();
        line.append("/publishers/");
        line.append(self.id.as_str());
        line.append(" alternativeId=");
        push_optional(&mut line, &self.alternative_id);
        line.append(" description=");
        line.append(self.description.as_str());
        line.append(" email=");
        push_optional(&mut line, &self.email);
        line.append(" active=");
        push_flag(&mut line, self.active);
        line
    }
}

impl Software {
    /// The line that shows this entry: its address, the repository URL in
    /// brackets, then the remaining fields under their names.
    pub open spec fn line(&self) -> Seq<char> {
        API_BASE_URL@ + "/publishers/"@ + self.id@ + " ("@ + self.url@ + ") active="@ + flag_text(
            self.active,
        ) + " publiccodeYml="@ + self.publiccode_yml@
    }

    /// Writes the entry as one line.
    pub fn render(&self) -> (line: String)
        ensures
            line@ == self.line(),
    {
        let mut line = API_BASE_URL.to_owned();
        line.append("/publishers/");
        line.append(self.id.as_str());
        line.append(" (");
        line.append(self.url.as_str());
        line.append(") active=");
        push_flag(&mut line, self.active);
        line.append(" publiccodeYml=");
        line.append(self.publiccode_yml.as_str());
        line
    }
}

} // verus!
