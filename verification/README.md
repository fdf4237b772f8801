# xmip-core-authenticate-pam

Authenticate by PAM: a username and password proved through a PAM
conversation, refusing where no PAM stack is reachable from this build.

- `src/conversation.rs`: the four PAM message styles, the `Conversation`
  trait, and `Credential`, which answers a secret prompt with the password,
  an open one with the username, and keeps what the stack says.
- `src/stack.rs`: `Verdict` and PAM's names for it, the `Stack` trait, the
  `Unreachable` stack, and the in-process stack (`InProcess`), which checks
  passwords against any `CredentialCheck`.
- `src/lib.rs`: `PamAuthenticator`, which screens a claim, puts it to a
  stack with the credential answering, and turns the stack's conclusion into
  a verdict; the laws of that conclusion stand beside it as proof functions.
- `src/error.rs`: the error type and the text helpers.
- `app/`: the `Authenticator` of the `authenticate` crate over this library,
  and that crate's credential store as a `CredentialCheck`.
