use vstd::prelude::*;

verus! {

/// One named argument of a decoded call, with its value written as a string.
pub struct Parameter {
    pub name: String,
    pub value: String,
}

/// A call as a decoder reads it out of raw call data: the method's name and its
/// named arguments, each name standing once.
pub struct DataDecoded {
    pub method: String,
    pub parameters: Vec<Parameter>,
}

/// The abstract form of a decoded call: the method name and the (name, value)
/// pairs of its arguments, in order.
pub struct DecodedCall {
    pub method: Seq<char>,
    pub parameters: Seq<(Seq<char>, Seq<char>)>,
}

impl View for Parameter {
    type V = (Seq<char>, Seq<char>);

    open spec fn view(&self) -> (Seq<char>, Seq<char>) {
        (self.name@, self.value@)
    }
}

impl View for DataDecoded {
    type V = DecodedCall;

    open spec fn view(&self) -> DecodedCall {
        DecodedCall {
            method: self.method@,
            parameters: self.parameters@.map_values(|p: Parameter| p@),
        }
    }
}

/// The value of the first argument called `name`, if there is one.
pub open spec fn param_value(params: Seq<(Seq<char>, Seq<char>)>, name: Seq<char>) -> Option<
    Seq<char>,
>
    decreases params.len(),
{
    if params.len() == 0 {
        None
    } else if params[0].0 == name {
        Some(params[0].1)
    } else {
        param_value(params.drop_first(), name)
    }
}

/// Methods of the safe itself that change its owners, threshold, modules,
/// fallback handler or master copy.
pub open spec fn is_settings_change_method(m: Seq<char>) -> bool {
    m == "setFallbackHandler"@ || m == "addOwnerWithThreshold"@ || m == "removeOwner"@ || m
        == "swapOwner"@ || m == "changeThreshold"@ || m == "changeMasterCopy"@ || m
        == "enableModule"@ || m == "disableModule"@
}

/// Methods that move fungible tokens.
pub open spec fn is_erc20_transfer_name(m: Seq<char>) -> bool {
    m == "transfer"@ || m == "transferFrom"@
}

/// Methods that move a non-fungible token.
pub open spec fn is_erc721_transfer_name(m: Seq<char>) -> bool {
    m == "transfer"@ || m == "transferFrom"@ || m == "safeTransferFrom"@
}

/// The view of an optional string.
pub open spec fn opt_view(o: Option<String>) -> Option<Seq<char>> {
    match o {
        Some(s) => Some(s@),
        None => None,
    }
}

impl Parameter {
    /// An argument with the given name and value.
    pub fn new(name: &str, value: &str) -> (r: Parameter)
        ensures
            r@ == (name@, value@),
    {
        Parameter { name: name.to_owned(), value: value.to_owned() }
    }

    /// A copy with the same name and value.
    pub fn duplicate(&self) -> (r: Parameter)
        ensures
            r@ == self@,
    {
        Parameter { name: self.name.clone(), value: self.value.clone() }
    }
}

impl DataDecoded {
    /// A call of `method` with the given arguments.
    pub fn new(method: &str, parameters: Vec<Parameter>) -> (r: DataDecoded)
        ensures
            r.method@ == method@,
            r.parameters@ == parameters@,
    {
        DataDecoded { method: method.to_owned(), parameters }
    }

    /// A copy of the whole call: same method, same arguments in the same order.
    pub fn duplicate(&self) -> (r: DataDecoded)
        ensures
            r@ == self@,
    {
        let mut parameters: Vec<Parameter> = Vec::new();
        let n = self.parameters.len();
        for i in 0..n
            invariant
                n == self.parameters@.len(),
                parameters@.len() == i,
                forall|j: int| 0 <= j < i ==> #[trigger] parameters@[j]@ == self.parameters@[j]@,
        {
            parameters.push(self.parameters[i].duplicate());
        }
        let r = DataDecoded { method: self.method.clone(), parameters };
        assert(r@.parameters =~= self@.parameters);
        r
    }

    fn method_is(&self, name: &str) -> (r: bool)
        ensures
            r == (self.method@ == name@),
    {
        self.method == name.to_owned()
    }

    /// Whether the call changes the settings of the safe it is sent to.
    pub fn is_settings_change(&self) -> (r: bool)
        ensures
            r == is_settings_change_method(self.method@),
    {
        self.method_is("setFallbackHandler") || self.method_is("addOwnerWithThreshold")
            || self.method_is("removeOwner") || self.method_is("swapOwner") || self.method_is(
            "changeThreshold",
        ) || self.method_is("changeMasterCopy") || self.method_is("enableModule")
            || self.method_is("disableModule")
    }

    /// Whether the method is one that moves fungible tokens.
    pub fn is_erc20_transfer_method(&self) -> (r: bool)
        ensures
            r == is_erc20_transfer_name(self.method@),
    {
        self.method_is("transfer") || self.method_is("transferFrom")
    }

    /// Whether the method is one that moves a non-fungible token.
    pub fn is_erc721_transfer_method(&self) -> (r: bool)
        ensures
            r == is_erc721_transfer_name(self.method@),
    {
        self.method_is("transfer") || self.method_is("transferFrom") || self.method_is(
            "safeTransferFrom",
        )
    }

    /// The value of the argument called `name`.
    pub fn get_parameter_value(&self, name: &str) -> (r: Option<String>)
        ensures
            opt_view(r) == param_value(self@.parameters, name@),
    {
        let n = self.parameters.len();
        let mut i: usize = 0;
        assert(self@.parameters.skip(0) =~= self@.parameters);
        while i < n
            invariant
                n == self.parameters@.len(),
                i <= n,
                param_value(self@.parameters, name@) == param_value(
                    self@.parameters.skip(i as int),
                    name@,
                ),
            decreases n - i,
        {
            let p = &self.parameters[i];
            assert(self@.parameters.skip(i as int)[0] == p@);
            if p.name == name.to_owned() {
                return Some(p.value.clone());
            }
            assert(self@.parameters.skip(i as int).drop_first() =~= self@.parameters.skip(
                i as int + 1,
            ));
            i = i + 1;
        }
        None
    }
}

} // verus!
