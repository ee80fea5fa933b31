use vstd::prelude::*;
use vstd::string::*;
use crate::text::str_eq;

verus! {

/// A hosting service whose creators can be targeted. The service decides
/// which of the two site families serves its API and CDN.
#[derive(Clone, Copy, PartialEq, Eq, Structural, Debug, Hash)]
pub enum Service {
    Afdian,
    Boosty,
    CandFans,
    Discord,
    DlSite,
    Fanbox,
    Fansly,
    Fantia,
    Gumroad,
    OnlyFans,
    Patreon,
    SubscribeStar,
}

/// The lowercase name of a service, as it appears in URLs and directory names.
pub open spec fn spec_service_name(s: Service) -> Seq<char> {
    match s {
        Service::Afdian => "afdian"@,
        Service::Boosty => "boosty"@,
        Service::CandFans => "candfans"@,
        Service::Discord => "discord"@,
        Service::DlSite => "dlsite"@,
        Service::Fanbox => "fanbox"@,
        Service::Fansly => "fansly"@,
        Service::Fantia => "fantia"@,
        Service::Gumroad => "gumroad"@,
        Service::OnlyFans => "onlyfans"@,
        Service::Patreon => "patreon"@,
        Service::SubscribeStar => "subscribestar"@,
    }
}

impl Service {
    /// The site family hosting this service: `coomer` for the three
    /// subscription sites, `kemono` for everything else.
    pub open spec fn spec_site(self) -> Seq<char> {
        if self == Service::CandFans || self == Service::Fansly || self == Service::OnlyFans {
            "coomer"@
        } else {
            "kemono"@
        }
    }

    /// The site family's domain label.
    pub fn site(self) -> (r: &'static str)
        ensures
            r@ == self.spec_site(),
    {
        match self {
            Service::CandFans => "coomer",
            Service::Fansly => "coomer",
            Service::OnlyFans => "coomer",
            _ => "kemono",
        }
    }

    /// The lowercase name of this service.
    pub fn name(self) -> (r: &'static str)
        ensures
            r@ == spec_service_name(self),
    {
        match self {
            Service::Afdian => "afdian",
            Service::Boosty => "boosty",
            Service::CandFans => "candfans",
            Service::Discord => "discord",
            Service::DlSite => "dlsite",
            Service::Fanbox => "fanbox",
            Service::Fantia => "fantia",
            Service::Fansly => "fansly",
            Service::Gumroad => "gumroad",
            Service::OnlyFans => "onlyfans",
            Service::Patreon => "patreon",
            Service::SubscribeStar => "subscribestar",
        }
    }

    /// Parses a lowercase service name; `None` exactly when no service
    /// carries that name.
    pub fn from_name(s: &str) -> (r: Option<Service>)
        ensures
            match r {
                Some(svc) => s@ == spec_service_name(svc),
                None => forall|svc: Service| s@ != spec_service_name(svc),
            },
    {
        if str_eq(s, "afdian") {
            Some(Service::Afdian)
        } else if str_eq(s, "boosty") {
            Some(Service::Boosty)
        } else if str_eq(s, "candfans") {
            Some(Service::CandFans)
        } else if str_eq(s, "discord") {
            Some(Service::Discord)
        } else if str_eq(s, "dlsite") {
            Some(Service::DlSite)
        } else if str_eq(s, "fanbox") {
            Some(Service::Fanbox)
        } else if str_eq(s, "fansly") {
            Some(Service::Fansly)
        } else if str_eq(s, "fantia") {
            Some(Service::Fantia)
        } else if str_eq(s, "gumroad") {
            Some(Service::Gumroad)
        } else if str_eq(s, "onlyfans") {
            Some(Service::OnlyFans)
        } else if str_eq(s, "patreon") {
            Some(Service::Patreon)
        } else if str_eq(s, "subscribestar") {
            Some(Service::SubscribeStar)
        } else {
            None
        }
    }
}

/// Refinement of a creator target: the whole listing, one page of it,
/// or one specific post.
#[derive(Clone, Debug)]
pub enum SubType {
    All,
    PageOffset(u64),
    Post(String),
}

/// A resolved, immutable identity for what to fetch: a creator on a
/// service, or a discord server (optionally one channel of it).
#[derive(Clone, Debug)]
pub enum Target {
    Creator { service: Service, user: String, subtype: SubType },
    Discord { server: String, channel: Option<String> },
}

impl Target {
    /// The service this target belongs to.
    pub open spec fn spec_service(self) -> Service {
        match self {
            Target::Creator { service, .. } => service,
            Target::Discord { .. } => Service::Discord,
        }
    }

    /// The service this target belongs to.
    pub fn service(&self) -> (r: Service)
        ensures
            r == self.spec_service(),
    {
        match self {
            Target::Creator { service, .. } => *service,
            Target::Discord { .. } => Service::Discord,
        }
    }

    /// The user (creator) or server identity of the target.
    pub open spec fn spec_user(self) -> Seq<char> {
        match self {
            Target::Creator { user, .. } => user@,
            Target::Discord { server, .. } => server@,
        }
    }

    /// The user (creator) or server identity of the target.
    pub fn user(&self) -> (r: String)
        ensures
            r@ == self.spec_user(),
    {
        match self {
            Target::Creator { user, .. } => user.clone(),
            Target::Discord { server, .. } => server.clone(),
        }
    }

    /// The site family domain label for this target.
    pub open spec fn spec_site(self) -> Seq<char> {
        self.spec_service().spec_site()
    }

    /// The site family domain label for this target.
    pub fn site(&self) -> (r: &'static str)
        ensures
            r@ == self.spec_site(),
    {
        self.service().site()
    }

    /// The listing page size of the service behind this target: discord
    /// channel listings come in pages of 150 records, creator listings in
    /// pages of 50.
    pub open spec fn spec_page_size(self) -> u64 {
        if self is Discord {
            150u64
        } else {
            50u64
        }
    }

    /// The listing page size of the service behind this target.
    pub fn page_size(&self) -> (r: u64)
        ensures
            r == self.spec_page_size(),
    {
        match self {
            Target::Discord { .. } => 150,
            Target::Creator { .. } => 50,
        }
    }

    /// The on-disk directory for this target under `root`:
    /// `root/<service>/<user>`.
    pub open spec fn spec_dir_path(self, root: Seq<char>) -> Seq<char> {
        root + "/"@ + spec_service_name(self.spec_service()) + "/"@ + self.spec_user()
    }

    /// The on-disk path of a file named `name` for this target under `root`:
    /// `root/<service>/<user>/<name>`.
    pub open spec fn spec_file_path(self, root: Seq<char>, name: Seq<char>) -> Seq<char> {
        self.spec_dir_path(root) + "/"@ + name
    }

    /// Builds the on-disk path for this target under `output_root`,
    /// extended with `file` when one is given.
    pub fn to_pathbuf(&self, output_root: &str, file: Option<&str>) -> (r: String)
        ensures
            match file {
                Some(f) => r@ == self.spec_file_path(output_root@, f@),
                None => r@ == self.spec_dir_path(output_root@),
            },
    {
        let mut path = String::from_str(output_root);
        path.append("/");
        path.append(self.service().name());
        path.append("/");
        let user = self.user();
        path.append(user.as_str());
        if let Some(f) = file {
            path.append("/");
            path.append(f);
        }
        path
    }

    /// The human-readable identity of the target: `<service>/<user>`,
    /// extended with the post id or channel id where one is given.
    pub open spec fn spec_label(self) -> Seq<char> {
        match self {
            Target::Creator { service, user, subtype } => spec_service_name(service) + "/"@
                + user@ + (match subtype {
                SubType::Post(p) => "/"@ + p@,
                _ => Seq::<char>::empty(),
            }),
            Target::Discord { server, channel } => "discord/"@ + server@ + (match channel {
                Some(c) => "/"@ + c@,
                None => Seq::<char>::empty(),
            }),
        }
    }

    /// Renders the human-readable identity of the target.
    pub fn label(&self) -> (r: String)
        ensures
            r@ == self.spec_label(),
    {
        match self {
            Target::Creator { service, user, subtype } => {
                let mut r = String::from_str(service.name());
                r.append("/");
                r.append(user.as_str());
                if let SubType::Post(p) = subtype {
                    r.append("/");
                    r.append(p.as_str());
                }
                proof {
                    assert(r@ =~= self.spec_label());
                }
                r
            },
            Target::Discord { server, channel } => {
                let mut r = String::from_str("discord/");
                r.append(server.as_str());
                if let Some(c) = channel {
                    r.append("/");
                    r.append(c.as_str());
                }
                proof {
                    assert(r@ =~= self.spec_label());
                }
                r
            },
        }
    }
}

} // verus!
