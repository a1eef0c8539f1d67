# linked_call

Calls between the components of one workload. When a component imports a function
that another component exports, the call goes down one of two paths:

- in the caller's store, where the callee has an instance and handles cross by
  identity, or
- in a store that is made for the call and dropped after it, when the signature
  carries plain values only.

`src/` is the verified library: it decides which path a call takes, what a store and
the contexts in it are made of, which limits and which socket policy hold, in which
order the steps go, and how a failure reads. `app/` performs the steps with the
engine. `tests/` runs the library.
