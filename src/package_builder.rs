//! A software package description, put together step by step by a builder.
use vstd::prelude::*;

verus! {

broadcast use vstd::string::to_string_from_display_ensures_for_str;

/// The language a package is written in.
#[derive(Debug, Clone, Copy, PartialEq, Eq, Structural)]
pub enum Language {
    Rust,
    Java,
    Perl,
}

/// A package that another one depends on, with the versions it accepts.
#[derive(Clone, Debug)]
pub struct Dependency {
    pub name: String,
    pub version_expression: String,
}

/// A representation of a software package.
#[derive(Debug)]
pub struct Package {
    pub name: String,
    pub version: String,
    pub authors: Vec<String>,
    pub dependencies: Vec<Dependency>,
    pub language: Option<Language>,
}

impl Package {
    /// This package as a dependency of another: its name, and its version
    /// as the accepted versions.
    pub fn as_dependency(&self) -> (r: Dependency)
        ensures
            r.name@ == self.name@,
            r.version_expression@ == self.version@,
    {
        Dependency { name: self.name.clone(), version_expression: self.version.clone() }
    }
}

/// A builder for a Package. Use `build()` to create the `Package` itself.
pub struct PackageBuilder(pub Package);

impl PackageBuilder {
    /// A package called `name`, at version `0.1`, with no authors, no
    /// dependencies and no language.
    pub fn new(name: &str) -> (r: Self)
        ensures
            r.0.name@ == name@,
            r.0.version@ == "0.1"@,
            r.0.authors@ == Seq::<String>::empty(),
            r.0.dependencies@ == Seq::<Dependency>::empty(),
            r.0.language == None::<Language>,
    {
        PackageBuilder(
            Package {
                name: name.to_string(),
                version: "0.1".to_string(),
                authors: Vec::new(),
                dependencies: Vec::new(),
                language: None,
            },
        )
    }

    /// Set the package version.
    pub fn version(self, version: &str) -> (r: Self)
        ensures
            r.0.name == self.0.name,
            r.0.version@ == version@,
            r.0.authors == self.0.authors,
            r.0.dependencies == self.0.dependencies,
            r.0.language == self.0.language,
    {
        let mut b = self;
        b.0.version = version.to_string();
        b
    }

    /// Add authors after those already named, in the order given.
    pub fn authors(self, authors: Vec<String>) -> (r: Self)
        ensures
            r.0.name == self.0.name,
            r.0.version == self.0.version,
            r.0.authors@ == self.0.authors@ + authors@,
            r.0.dependencies == self.0.dependencies,
            r.0.language == self.0.language,
    {
        let mut b = self;
        for author in iter: authors
            invariant
                b.0.name == self.0.name,
                b.0.version == self.0.version,
                b.0.authors@ == self.0.authors@ + iter.seq().take(iter.index() as int),
                b.0.dependencies == self.0.dependencies,
                b.0.language == self.0.language,
                iter.seq() == authors@,
        {
            b.0.authors.push(author);
            assert(b.0.authors@ =~= self.0.authors@ + iter.seq().take(iter.index() + 1));
        }
        assert(authors@.take(authors@.len() as int) =~= authors@);
        b
    }

    /// Add an additional dependency.
    pub fn dependency(self, dependency: Dependency) -> (r: Self)
        ensures
            r.0.name == self.0.name,
            r.0.version == self.0.version,
            r.0.authors == self.0.authors,
            r.0.dependencies@ == self.0.dependencies@.push(dependency),
            r.0.language == self.0.language,
    {
        let mut b = self;
        b.0.dependencies.push(dependency);
        b
    }

    /// Set the language. If not set, language defaults to None.
    pub fn language(self, language: Language) -> (r: Self)
        ensures
            r.0.name == self.0.name,
            r.0.version == self.0.version,
            r.0.authors == self.0.authors,
            r.0.dependencies == self.0.dependencies,
            r.0.language == Some(language),
    {
        let mut b = self;
        b.0.language = Some(language);
        b
    }

    /// The package as built so far.
    pub fn build(self) -> (r: Package)
        ensures
            r == self.0,
    {
        self.0
    }
}

} // verus!
