use vstd::prelude::*;
use vstd::string::*;

use crate::error::ModelError;

verus! {

/// The closed set of rate laws that an integrator can be built around.
#[derive(Clone, Copy, Debug, PartialEq, Eq)]
pub enum ModelType {
    /// Linear decay, `f(x, y) = -λ y`, with a closed-form solution.
    Dahlquist,
    /// Two-regime hardening and softening with a smooth transition.
    HardeningSoftening,
}

/// The names of the parameters that the laws read.
#[derive(Clone, Copy, Debug, PartialEq, Eq)]
pub enum ParamName {
    /// Decay constant λ of the linear-decay law.
    Lambda,
    /// Initial slope λi.
    Li,
    /// Reference slope λr, after the peak.
    Lr,
    /// Ordinate of the reference curve at zero strain.
    Y0r,
    /// Smoothing coefficient α, from λi towards λr.
    A,
    /// Smoothing coefficient β, from λr towards zero.
    B,
}

impl ParamName {
    /// The key under which the parameter is looked up.
    pub open spec fn spec_key(self) -> Seq<char> {
        match self {
            ParamName::Lambda => "lambda"@,
            ParamName::Li => "li"@,
            ParamName::Lr => "lr"@,
            ParamName::Y0r => "y0r"@,
            ParamName::A => "a"@,
            ParamName::B => "b"@,
        }
    }

    /// The message of the error raised when the parameter is absent.
    pub open spec fn spec_missing_message(self) -> Seq<char> {
        match self {
            ParamName::Lambda => "Parameter 'lambda' not found"@,
            ParamName::Li => "Parameter 'li' not found"@,
            ParamName::Lr => "Parameter 'lr' not found"@,
            ParamName::Y0r => "Parameter 'y0r' not found"@,
            ParamName::A => "Parameter 'a' not found"@,
            ParamName::B => "Parameter 'b' not found"@,
        }
    }

    pub fn key(&self) -> (r: &'static str)
        ensures
            r@ == self.spec_key(),
    {
        match self {
            ParamName::Lambda => "lambda",
            ParamName::Li => "li",
            ParamName::Lr => "lr",
            ParamName::Y0r => "y0r",
            ParamName::A => "a",
            ParamName::B => "b",
        }
    }

    pub fn missing_message(&self) -> (r: &'static str)
        ensures
            r@ == self.spec_missing_message(),
    {
        match self {
            ParamName::Lambda => "Parameter 'lambda' not found",
            ParamName::Li => "Parameter 'li' not found",
            ParamName::Lr => "Parameter 'lr' not found",
            ParamName::Y0r => "Parameter 'y0r' not found",
            ParamName::A => "Parameter 'a' not found",
            ParamName::B => "Parameter 'b' not found",
        }
    }
}

/// The value stored under `key`: that of the first entry with this key.
pub open spec fn find_value<T>(params: Seq<(String, T)>, key: Seq<char>) -> Option<T>
    decreases params.len(),
{
    if params.len() == 0 {
        None
    } else if params[0].0@ == key {
        Some(params[0].1)
    } else {
        find_value(params.drop_first(), key)
    }
}

/// Whether two strings hold the same characters.
pub fn same_text(s: &str, t: &str) -> (r: bool)
    ensures
        r == (s@ == t@),
{
    let n = s.unicode_len();
    if n != t.unicode_len() {
        return false;
    }
    let mut i: usize = 0;
    while i < n
        invariant
            n == s@.len(),
            n == t@.len(),
            i <= n,
            s@.subrange(0, i as int) == t@.subrange(0, i as int),
        decreases n - i,
    {
        if s.get_char(i) != t.get_char(i) {
            assert(s@[i as int] != t@[i as int]);
            return false;
        }
        assert(s@.subrange(0, i + 1) =~= s@.subrange(0, i as int).push(s@[i as int]));
        assert(t@.subrange(0, i + 1) =~= t@.subrange(0, i as int).push(t@[i as int]));
        i = i + 1;
    }
    assert(s@ =~= s@.subrange(0, n as int));
    assert(t@ =~= t@.subrange(0, n as int));
    true
}

/// Looks up the value stored under `key`.
pub fn lookup<T: Copy>(params: &Vec<(String, T)>, key: &str) -> (r: Option<T>)
    ensures
        r == find_value(params@, key@),
{
    let n = params.len();
    let mut i: usize = 0;
    assert(params@.subrange(0, n as int) =~= params@);
    while i < n
        invariant
            n == params@.len(),
            i <= n,
            find_value(params@.subrange(i as int, n as int), key@) == find_value(params@, key@),
        decreases n - i,
    {
        let rest = Ghost(params@.subrange(i as int, n as int));
        assert(rest@[0] == params@[i as int]);
        if same_text(params[i].0.as_str(), key) {
            return Some(params[i].1);
        }
        assert(rest@.drop_first() =~= params@.subrange(i + 1, n as int));
        i = i + 1;
    }
    assert(params@.subrange(n as int, n as int).len() == 0);
    None
}

impl ModelType {
    /// The parameters that the law needs, in the order in which they are read.
    pub open spec fn spec_required(self) -> Seq<ParamName> {
        match self {
            ModelType::Dahlquist => seq![ParamName::Lambda],
            ModelType::HardeningSoftening => seq![
                ParamName::Li,
                ParamName::Lr,
                ParamName::Y0r,
                ParamName::A,
                ParamName::B,
            ],
        }
    }

    pub fn required(&self) -> (r: Vec<ParamName>)
        ensures
            r@ == self.spec_required(),
    {
        match self {
            ModelType::Dahlquist => vec![ParamName::Lambda],
            ModelType::HardeningSoftening => vec![
                ParamName::Li,
                ParamName::Lr,
                ParamName::Y0r,
                ParamName::A,
                ParamName::B,
            ],
        }
    }
}

/// Whether a parameter is present under its key.
pub open spec fn has_param<T>(params: Seq<(String, T)>, p: ParamName) -> bool {
    find_value(params, p.spec_key()) is Some
}

/// The value of a parameter known to be present.
pub open spec fn value_of<T>(params: Seq<(String, T)>, p: ParamName) -> T {
    find_value(params, p.spec_key())->Some_0
}

/// The first parameter of `required` that is absent, if any.
pub open spec fn first_missing<T>(params: Seq<(String, T)>, required: Seq<ParamName>) -> Option<
    ParamName,
>
    decreases required.len(),
{
    if required.len() == 0 {
        None
    } else if !has_param(params, required[0]) {
        Some(required[0])
    } else {
        first_missing(params, required.drop_first())
    }
}

/// The parameters of a law, read from a set of named values.
#[derive(Clone, Copy, Debug, PartialEq)]
pub enum LawParams<T> {
    Dahlquist { lambda: T },
    HardeningSoftening { li: T, lr: T, y0r: T, a: T, b: T },
}

impl<T> LawParams<T> {
    pub open spec fn spec_model_type(self) -> ModelType {
        match self {
            LawParams::Dahlquist { .. } => ModelType::Dahlquist,
            LawParams::HardeningSoftening { .. } => ModelType::HardeningSoftening,
        }
    }

    /// Whether each field holds the value stored under its parameter's key.
    pub open spec fn read_from(self, params: Seq<(String, T)>) -> bool {
        match self {
            LawParams::Dahlquist { lambda } => lambda == value_of(params, ParamName::Lambda),
            LawParams::HardeningSoftening { li, lr, y0r, a, b } => {
                &&& li == value_of(params, ParamName::Li)
                &&& lr == value_of(params, ParamName::Lr)
                &&& y0r == value_of(params, ParamName::Y0r)
                &&& a == value_of(params, ParamName::A)
                &&& b == value_of(params, ParamName::B)
            },
        }
    }

    pub fn model_type(&self) -> (r: ModelType)
        ensures
            r == self.spec_model_type(),
    {
        match self {
            LawParams::Dahlquist { .. } => ModelType::Dahlquist,
            LawParams::HardeningSoftening { .. } => ModelType::HardeningSoftening,
        }
    }
}

impl<T: Copy> LawParams<T> {
    /// Reads the parameters that `model_type` needs. The first one absent, in
    /// the law's order, is reported; entries under other keys are ignored.
    pub fn from_params(model_type: ModelType, params: &Vec<(String, T)>) -> (r: Result<
        LawParams<T>,
        ModelError,
    >)
        ensures
            match first_missing(params@, model_type.spec_required()) {
                Some(p) => r == Err::<LawParams<T>, ModelError>(ModelError::MissingParameter(p)),
                None => r matches Ok(lp) && lp.spec_model_type() == model_type && lp.read_from(
                    params@,
                ),
            },
    {
        let ghost req = model_type.spec_required();
        proof {
            reveal_with_fuel(first_missing, 6);
        }
        match model_type {
            ModelType::Dahlquist => {
                assert(req.drop_first() =~= Seq::<ParamName>::empty());
                let lambda = match lookup(params, ParamName::Lambda.key()) {
                    Some(v) => v,
                    None => { return Err(ModelError::MissingParameter(ParamName::Lambda)) },
                };
                Ok(LawParams::Dahlquist { lambda })
            },
            ModelType::HardeningSoftening => {
                let ghost s = params@;
                assert(req.drop_first() =~= seq![
                    ParamName::Lr,
                    ParamName::Y0r,
                    ParamName::A,
                    ParamName::B,
                ]);
                assert(req.drop_first().drop_first() =~= seq![
                    ParamName::Y0r,
                    ParamName::A,
                    ParamName::B,
                ]);
                assert(req.drop_first().drop_first().drop_first() =~= seq![
                    ParamName::A,
                    ParamName::B,
                ]);
                assert(req.drop_first().drop_first().drop_first().drop_first() =~= seq![
                    ParamName::B,
                ]);
                assert(req.drop_first().drop_first().drop_first().drop_first().drop_first()
                    =~= Seq::<ParamName>::empty());
                let li = match lookup(params, ParamName::Li.key()) {
                    Some(v) => v,
                    None => { return Err(ModelError::MissingParameter(ParamName::Li)) },
                };
                let lr = match lookup(params, ParamName::Lr.key()) {
                    Some(v) => v,
                    None => { return Err(ModelError::MissingParameter(ParamName::Lr)) },
                };
                let y0r = match lookup(params, ParamName::Y0r.key()) {
                    Some(v) => v,
                    None => { return Err(ModelError::MissingParameter(ParamName::Y0r)) },
                };
                let a = match lookup(params, ParamName::A.key()) {
                    Some(v) => v,
                    None => { return Err(ModelError::MissingParameter(ParamName::A)) },
                };
                let b = match lookup(params, ParamName::B.key()) {
                    Some(v) => v,
                    None => { return Err(ModelError::MissingParameter(ParamName::B)) },
                };
                Ok(LawParams::HardeningSoftening { li, lr, y0r, a, b })
            },
        }
    }
}

} // verus!
