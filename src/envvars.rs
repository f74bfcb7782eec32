use vstd::prelude::*;
use crate::text::str_eq;

verus! {

/// The value of the first pair whose name is `key`.
pub open spec fn lookup(pairs: Seq<(Seq<char>, Seq<char>)>, key: Seq<char>) -> Option<Seq<char>>
    decreases pairs.len(),
{
    if pairs.len() == 0 {
        None
    } else if pairs[0].0 == key {
        Some(pairs[0].1)
    } else {
        lookup(pairs.drop_first(), key)
    }
}

pub open spec fn pairs_view(v: Seq<(String, String)>) -> Seq<(Seq<char>, Seq<char>)> {
    v.map_values(|p: (String, String)| (p.0@, p.1@))
}

/// The settings the server needs before it starts.
pub open spec fn required_names() -> Seq<Seq<char>> {
    seq![
        "ADMIN_EMAIL"@, "ADMIN_PASSWORD"@, "PATH_STATIC_FILES"@, "STRIPE_SECRET_KEY"@,
        "STRIPE_WEBHOOK_KEY"@, "JWT_SECRET_KEY"@, "MAIL_SECRET_KEY"@, "DELETION_SECRET_KEY"@,
        "DOMAIN_URL"@, "SMTP_MAIL_ADDRESS"@, "SMTP_SENDER_NAME"@, "SMTP_HOST"@,
        "SMTP_USERNAME"@, "SMTP_PASSWORD"@,
    ]
}

fn required_name_list() -> (r: Vec<&'static str>)
    ensures
        r@.len() == required_names().len(),
        forall|i: int| 0 <= i < r@.len() ==> #[trigger] r@[i]@ == required_names()[i],
{
    let r = vec![
        "ADMIN_EMAIL", "ADMIN_PASSWORD", "PATH_STATIC_FILES", "STRIPE_SECRET_KEY",
        "STRIPE_WEBHOOK_KEY", "JWT_SECRET_KEY", "MAIL_SECRET_KEY", "DELETION_SECRET_KEY",
        "DOMAIN_URL", "SMTP_MAIL_ADDRESS", "SMTP_SENDER_NAME", "SMTP_HOST",
        "SMTP_USERNAME", "SMTP_PASSWORD",
    ];
    r
}

fn lookup_exec<'a>(pairs: &'a Vec<(String, String)>, key: &str) -> (r: Option<&'a String>)
    ensures
        r is None <==> lookup(pairs_view(pairs@), key@) is None,
        r matches Some(v) ==> lookup(pairs_view(pairs@), key@) == Some(v@),
{
    let mut i: usize = 0;
    assert(pairs_view(pairs@).subrange(0, pairs@.len() as int) == pairs_view(pairs@));
    while i < pairs.len()
        invariant
            i <= pairs@.len(),
            lookup(pairs_view(pairs@), key@) == lookup(pairs_view(pairs@).subrange(i as int, pairs@.len() as int), key@),
        decreases pairs@.len() - i,
    {
        let ghost rest = pairs_view(pairs@).subrange(i as int, pairs@.len() as int);
        assert(rest[0] == (pairs@[i as int].0@, pairs@[i as int].1@));
        if str_eq(pairs[i].0.as_str(), key) {
            return Some(&pairs[i].1);
        }
        assert(rest.drop_first() == pairs_view(pairs@).subrange(i + 1, pairs@.len() as int));
        i = i + 1;
    }
    None
}

/// Settings read once at start-up; every later read comes from memory, so a
/// missing setting stops the server at launch rather than at some request.
pub struct EnvVarLoader {
    env_vars: Vec<(String, String)>,
}

impl EnvVarLoader {
    pub closed spec fn vars(&self) -> Seq<(Seq<char>, Seq<char>)> {
        pairs_view(self.env_vars@)
    }

    #[verifier::type_invariant]
    spec fn all_present(&self) -> bool {
        forall|i: int| 0 <= i < required_names().len() ==> (#[trigger] lookup(pairs_view(self.env_vars@), required_names()[i])) is Some
    }

    /// The settings, from (name, value) pairs such as the environment's; the
    /// first required name that is missing is reported.
    pub fn from_pairs(pairs: Vec<(String, String)>) -> (r: Result<EnvVarLoader, String>)
        ensures
            r is Ok <==> forall|i: int| 0 <= i < required_names().len() ==> (#[trigger] lookup(pairs_view(pairs@), required_names()[i])) is Some,
            r matches Ok(l) ==> l.vars() == pairs_view(pairs@),
            r matches Err(name) ==> required_names().contains(name@) && lookup(pairs_view(pairs@), name@) is None,
    {
        let names = required_name_list();
        let mut i: usize = 0;
        while i < names.len()
            invariant
                names@.len() == required_names().len(),
                forall|k: int| 0 <= k < names@.len() ==> #[trigger] names@[k]@ == required_names()[k],
                i <= names@.len(),
                forall|k: int| 0 <= k < i ==> (#[trigger] lookup(pairs_view(pairs@), required_names()[k])) is Some,
            decreases names@.len() - i,
        {
            if lookup_exec(&pairs, names[i]).is_none() {
                assert(required_names()[i as int] == names@[i as int]@);
                return Err(crate::text::owned(names[i]));
            }
            i = i + 1;
        }
        Ok(EnvVarLoader { env_vars: pairs })
    }

    fn get(&self, key: &str) -> (r: String)
        requires
            required_names().contains(key@),
        ensures
            Some(r@) == lookup(self.vars(), key@),
    {
        proof {
            use_type_invariant(self);
            let k = choose|k: int| 0 <= k < required_names().len() && required_names()[k] == key@;
            assert(lookup(pairs_view(self.env_vars@), required_names()[k]) is Some);
        }
        match lookup_exec(&self.env_vars, key) {
            Some(v) => v.clone(),
            // unreachable: every required name is present
            None => String::new(),
        }
    }

    pub fn get_admin_email(&self) -> (r: String)
        ensures
            Some(r@) == lookup(self.vars(), "ADMIN_EMAIL"@),
    {
        assert(required_names()[0] == "ADMIN_EMAIL"@);
        self.get("ADMIN_EMAIL")
    }

    pub fn get_admin_password(&self) -> (r: String)
        ensures
            Some(r@) == lookup(self.vars(), "ADMIN_PASSWORD"@),
    {
        assert(required_names()[1] == "ADMIN_PASSWORD"@);
        self.get("ADMIN_PASSWORD")
    }

    pub fn get_path_static_files(&self) -> (r: String)
        ensures
            Some(r@) == lookup(self.vars(), "PATH_STATIC_FILES"@),
    {
        assert(required_names()[2] == "PATH_STATIC_FILES"@);
        self.get("PATH_STATIC_FILES")
    }

    pub fn get_stripe_secret_key(&self) -> (r: String)
        ensures
            Some(r@) == lookup(self.vars(), "STRIPE_SECRET_KEY"@),
    {
        assert(required_names()[3] == "STRIPE_SECRET_KEY"@);
        self.get("STRIPE_SECRET_KEY")
    }

    pub fn get_stripe_webhook_key(&self) -> (r: String)
        ensures
            Some(r@) == lookup(self.vars(), "STRIPE_WEBHOOK_KEY"@),
    {
        assert(required_names()[4] == "STRIPE_WEBHOOK_KEY"@);
        self.get("STRIPE_WEBHOOK_KEY")
    }

    pub fn get_jwt_secret_key(&self) -> (r: String)
        ensures
            Some(r@) == lookup(self.vars(), "JWT_SECRET_KEY"@),
    {
        assert(required_names()[5] == "JWT_SECRET_KEY"@);
        self.get("JWT_SECRET_KEY")
    }

    pub fn get_mail_secret_key(&self) -> (r: String)
        ensures
            Some(r@) == lookup(self.vars(), "MAIL_SECRET_KEY"@),
    {
        assert(required_names()[6] == "MAIL_SECRET_KEY"@);
        self.get("MAIL_SECRET_KEY")
    }

    pub fn get_deletion_secret_key(&self) -> (r: String)
        ensures
            Some(r@) == lookup(self.vars(), "DELETION_SECRET_KEY"@),
    {
        assert(required_names()[7] == "DELETION_SECRET_KEY"@);
        self.get("DELETION_SECRET_KEY")
    }

    pub fn get_domain_url(&self) -> (r: String)
        ensures
            Some(r@) == lookup(self.vars(), "DOMAIN_URL"@),
    {
        assert(required_names()[8] == "DOMAIN_URL"@);
        self.get("DOMAIN_URL")
    }

    pub fn get_smtp_mail_address(&self) -> (r: String)
        ensures
            Some(r@) == lookup(self.vars(), "SMTP_MAIL_ADDRESS"@),
    {
        assert(required_names()[9] == "SMTP_MAIL_ADDRESS"@);
        self.get("SMTP_MAIL_ADDRESS")
    }

    pub fn get_smtp_sender_name(&self) -> (r: String)
        ensures
            Some(r@) == lookup(self.vars(), "SMTP_SENDER_NAME"@),
    {
        assert(required_names()[10] == "SMTP_SENDER_NAME"@);
        self.get("SMTP_SENDER_NAME")
    }

    pub fn get_smtp_host(&self) -> (r: String)
        ensures
            Some(r@) == lookup(self.vars(), "SMTP_HOST"@),
    {
        assert(required_names()[11] == "SMTP_HOST"@);
        self.get("SMTP_HOST")
    }

    pub fn get_smtp_username(&self) -> (r: String)
        ensures
            Some(r@) == lookup(self.vars(), "SMTP_USERNAME"@),
    {
        assert(required_names()[12] == "SMTP_USERNAME"@);
        self.get("SMTP_USERNAME")
    }

    pub fn get_smtp_password(&self) -> (r: String)
        ensures
            Some(r@) == lookup(self.vars(), "SMTP_PASSWORD"@),
    {
        assert(required_names()[13] == "SMTP_PASSWORD"@);
        self.get("SMTP_PASSWORD")
    }
}

} // verus!
