use vstd::prelude::*;

use crate::alias_map::AliasMap;
use crate::error::CaiError;

verus! {

/// The template followed by each token, every one preceded by a single space, in order.
pub open spec fn command_line(template: Seq<char>, tokens: Seq<Seq<char>>) -> Seq<char>
    decreases tokens.len(),
{
    if tokens.len() == 0 {
        template
    } else {
        command_line(template, tokens.drop_last()) + seq![' '] + tokens.last()
    }
}

/// The tokens that an optional list of arguments holds; none when it is absent.
pub open spec fn tokens_of(args: Option<Vec<String>>) -> Seq<Seq<char>> {
    match args {
        Some(v) => v@.map_values(|a: String| a@),
        None => Seq::empty(),
    }
}

/// Appends each argument to the template, each after one space.
fn compose(template: &String, args: &Vec<String>) -> (r: String)
    ensures
        r@ == command_line(template@, args@.map_values(|a: String| a@)),
{
    let ghost tokens = args@.map_values(|a: String| a@);
    let mut line = template.clone();
    let mut i: usize = 0;
    proof {
        assert(tokens.subrange(0, 0) =~= Seq::<Seq<char>>::empty());
    }
    while i < args.len()
        invariant
            i <= args@.len(),
            tokens == args@.map_values(|a: String| a@),
            line@ == command_line(template@, tokens.subrange(0, i as int)),
        decreases args@.len() - i,
    {
        line.append(" ");
        line.append(args[i].as_str());
        proof {
            reveal_strlit(" ");
            assert(tokens.subrange(0, i + 1).drop_last() =~= tokens.subrange(0, i as int));
        }
        i += 1;
    }
    proof {
        assert(tokens.subrange(0, args@.len() as int) =~= tokens);
    }
    line
}

/// An invocation: the alias that was typed and the tokens that followed it.
pub struct Cmd {
    command: String,
    args: Vec<String>,
}

impl Cmd {
    /// The alias that was typed.
    pub closed spec fn alias(&self) -> Seq<char> {
        self.command@
    }

    /// The tokens that followed the alias, in order.
    pub closed spec fn tokens(&self) -> Seq<Seq<char>> {
        self.args@.map_values(|a: String| a@)
    }

    /// An invocation of `command` with the tokens `args`; absent tokens are no tokens.
    pub fn new(command: Option<String>, args: Option<Vec<String>>) -> (r: Result<Cmd, CaiError>)
        ensures
            command.is_none() ==> r == Err::<Cmd, CaiError>(CaiError::MissingCommand),
            command.is_some() ==> r is Ok && r->Ok_0.alias() == command.unwrap()@
                && r->Ok_0.tokens() == tokens_of(args),
    {
        match command {
            Some(command) => {
                let ghost given = args;
                let list = match args {
                    Some(list) => list,
                    None => Vec::new(),
                };
                proof {
                    assert(list@.map_values(|a: String| a@) =~= tokens_of(given));
                }
                Ok(Cmd { command, args: list })
            },
            None => Err(CaiError::MissingCommand),
        }
    }

    /// The command line for this invocation: the template of its alias, then its tokens.
    pub fn build_cmd(&self, cmd_list: AliasMap) -> (r: Result<String, CaiError>)
        ensures
            cmd_list@.contains_key(self.alias()) ==> r is Ok && r->Ok_0@ == command_line(
                cmd_list@[self.alias()],
                self.tokens(),
            ),
            cmd_list@.contains_key(self.alias()) && self.tokens().len() == 0 ==> r is Ok
                && r->Ok_0@ == cmd_list@[self.alias()],
            !cmd_list@.contains_key(self.alias()) ==> r is Err && r->Err_0 is UnknownAlias
                && r->Err_0->UnknownAlias_0@ == self.alias(),
    {
        match cmd_list.get(&self.command) {
            Some(template) => Ok(compose(template, &self.args)),
            None => Err(CaiError::UnknownAlias(self.command.clone())),
        }
    }
}

/// The command line for `command` followed by `args`, looked up in `cmd_list`.
pub fn build_cmd(command: Option<String>, args: Option<Vec<String>>, cmd_list: AliasMap) -> (r:
    Result<String, CaiError>)
    ensures
        command.is_none() ==> r == Err::<String, CaiError>(CaiError::MissingCommand),
        command.is_some() && cmd_list@.contains_key(command.unwrap()@) ==> r is Ok && r->Ok_0@
            == command_line(cmd_list@[command.unwrap()@], tokens_of(args)),
        command.is_some() && !cmd_list@.contains_key(command.unwrap()@) ==> r is Err
            && r->Err_0 is UnknownAlias && r->Err_0->UnknownAlias_0@ == command.unwrap()@,
{
    let cmd = Cmd::new(command, args)?;
    cmd.build_cmd(cmd_list)
}

} // verus!
