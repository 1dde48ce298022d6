use vstd::prelude::*;

verus! {

/// The payload sent to the remote inference service.
#[derive(Debug, Clone)]
pub struct SlmRequest {
    /// The question or instruction from the user.
    pub prompt: String,
    /// Role instruction for the model; a lookup carries its search term here.
    pub system: Option<String>,
    /// User metadata.
    pub profile: Option<String>,
    /// Session settings.
    pub settings: Option<String>,
    /// Retrieval context; its presence selects retrieval-augmented answering.
    pub context: Option<String>,
    /// Named formatting template.
    pub template: Option<String>,
}

/// The text held by an optional string.
pub open spec fn opt_view(o: Option<String>) -> Option<Seq<char>> {
    match o {
        Some(s) => Some(s@),
        None => None,
    }
}

impl SlmRequest {
    /// The request fields as text, in the order prompt, system, profile,
    /// settings, context, template.
    pub open spec fn fields(&self) -> (
        Seq<char>,
        Option<Seq<char>>,
        Option<Seq<char>>,
        Option<Seq<char>>,
        Option<Seq<char>>,
        Option<Seq<char>>,
    ) {
        (
            self.prompt@,
            opt_view(self.system),
            opt_view(self.profile),
            opt_view(self.settings),
            opt_view(self.context),
            opt_view(self.template),
        )
    }

    /// A request that carries only `prompt`.
    pub fn new(prompt: &str) -> (r: Self)
        ensures
            r.fields() == (prompt@, None::<Seq<char>>, None::<Seq<char>>, None::<Seq<char>>, None::<Seq<char>>, None::<Seq<char>>),
    {
        SlmRequest {
            prompt: String::from_str(prompt),
            system: None,
            profile: None,
            settings: None,
            context: None,
            template: None,
        }
    }

    /// Sets the system, leaving the other fields as they were.
    pub fn set_system(&mut self, system: &str)
        ensures
            final(self).fields() == (old(self).fields().0, Some(system@), old(self).fields().2, old(self).fields().3, old(self).fields().4, old(self).fields().5),
    {
        self.system = Some(String::from_str(system));
    }

    /// Sets the profile, leaving the other fields as they were.
    pub fn set_profile(&mut self, profile: &str)
        ensures
            final(self).fields() == (old(self).fields().0, old(self).fields().1, Some(profile@), old(self).fields().3, old(self).fields().4, old(self).fields().5),
    {
        self.profile = Some(String::from_str(profile));
    }

    /// Sets the settings, leaving the other fields as they were.
    pub fn set_settings(&mut self, settings: &str)
        ensures
            final(self).fields() == (old(self).fields().0, old(self).fields().1, old(self).fields().2, Some(settings@), old(self).fields().4, old(self).fields().5),
    {
        self.settings = Some(String::from_str(settings));
    }

    /// Sets the context, leaving the other fields as they were.
    pub fn set_context(&mut self, context: &str)
        ensures
            final(self).fields() == (old(self).fields().0, old(self).fields().1, old(self).fields().2, old(self).fields().3, Some(context@), old(self).fields().5),
    {
        self.context = Some(String::from_str(context));
    }

    /// Sets the template, leaving the other fields as they were.
    pub fn set_template(&mut self, template: &str)
        ensures
            final(self).fields() == (old(self).fields().0, old(self).fields().1, old(self).fields().2, old(self).fields().3, old(self).fields().4, Some(template@)),
    {
        self.template = Some(String::from_str(template));
    }

    /// The instruction, if one is set.
    pub fn get_system(&self) -> (r: Option<&str>)
        ensures
            match r {
                Some(s) => self.system is Some && s@ == self.system->Some_0@,
                None => self.system is None,
            },
    {
        match &self.system {
            Some(s) => Some(s.as_str()),
            None => None,
        }
    }
}

} // verus!
