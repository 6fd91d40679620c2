# termirust_console

The decisions of a terminal console that hosts agent sessions: which projects,
groups, sessions and presets there are, what their views show, and what follows
from each command and each answer of a store or a host.

`src/` is the verified library. Its functions take plain values, among them the
replies of stores, the current time and the verdicts of other services; where a
decision asks outside several times, it takes the function to ask. The contracts
say what is returned or changed, and what is asked. Texts are message identities
(`MessageId`) with their arguments; what is drawn is a value that lists buttons,
facts and rows. Laws that relate several functions are public proof functions
named `law_…`.

`app/` reads the clock and the environment, opens the folder dialog, and takes
requests to the stores and services that its traits name.

`tests/` runs the library on concrete values.
